//! The recipe browser as a whole: the selection, the rows of the list, and one
//! frame of the panel body.
use vstd::prelude::*;
use crate::crafting::details::{
    ControlEvents, DetailCard, block_reason, button_text, counted, edited_text, is_line_of,
    max_hint_text, meta_text, recipe_details, recipe_title, requested, settled_text,
    station_chunk_text, time_text, title_text,
};
use crate::crafting::filter::{
    RecipeFilter, RecipeListEntry, collect_sorted_recipes, list_order, listed,
};
use crate::crafting::quantities::{QuantityBook, shown_text};
use crate::crafting::recipes::{RecipeDefinition, Registry, batch_ceiling};
use crate::crafting::stations::StationContext;
use crate::items::PlayerInventoryState;
use crate::sorting::stable_sort;
use crate::text::{only_digits, opt_text, quantity_of, same_text};

verus! {

/// The first line whose recipe has the given id.
pub open spec fn line_of(entries: Seq<RecipeListEntry>, id: Seq<char>) -> Option<int>
    decreases entries.len(),
{
    if entries.len() == 0 {
        None
    } else {
        match line_of(entries.drop_last(), id) {
            Some(i) => Some(i),
            None => if entries.last().recipe.id@ == id {
                Some(entries.len() - 1)
            } else {
                None
            },
        }
    }
}

/// The line that the detail card shows: the stored selection where it is
/// listed, and the top of the list elsewhere.
pub open spec fn effective_line(
    entries: Seq<RecipeListEntry>,
    selected: Option<Seq<char>>,
) -> int {
    match selected {
        Some(id) => match line_of(entries, id) {
            Some(i) => i,
            None => 0,
        },
        None => 0,
    }
}

/// Finds the line that the detail card shows.
pub fn effective_selection_index(
    entries: &Vec<RecipeListEntry>,
    selected_recipe: &Option<String>,
) -> (r: usize)
    ensures
        r == effective_line(entries@, opt_text(*selected_recipe)),
        entries@.len() > 0 ==> r < entries@.len(),
{
    let id = match selected_recipe {
        None => {
            return 0;
        },
        Some(id) => id,
    };
    let mut i: usize = 0;
    while i < entries.len()
        invariant
            i <= entries.len(),
            opt_text(*selected_recipe) == Some(id@),
            line_of(entries@.take(i as int), id@) is None,
        decreases entries.len() - i,
    {
        proof {
            assert(entries@.take(i + 1).drop_last() =~= entries@.take(i as int));
            assert(entries@.take(i + 1).last() == entries@[i as int]);
        }
        if same_text(entries[i].recipe.id.as_str(), id.as_str()) {
            proof {
                found_line_stays(entries@, id@, i + 1);
            }
            return i;
        }
        i = i + 1;
    }
    proof {
        assert(entries@.take(i as int) =~= entries@);
    }
    0
}

proof fn found_line_stays(entries: Seq<RecipeListEntry>, id: Seq<char>, n: int)
    requires
        0 <= n <= entries.len(),
        line_of(entries.take(n), id) is Some,
    ensures
        line_of(entries, id) == line_of(entries.take(n), id),
    decreases entries.len() - n,
{
    if n < entries.len() {
        assert(entries.take(n + 1).drop_last() =~= entries.take(n));
        found_line_stays(entries, id, n + 1);
    } else {
        assert(entries.take(n) =~= entries);
    }
}

/// A stored selection that is listed is the one that the card shows, wherever
/// it stands.
pub proof fn listed_selection_is_shown(entries: Seq<RecipeListEntry>, id: Seq<char>, i: int)
    requires
        0 <= i < entries.len(),
        entries[i].recipe.id@ == id,
    ensures
        0 <= effective_line(entries, Some(id)) < entries.len(),
        entries[effective_line(entries, Some(id))].recipe.id@ == id,
    decreases entries.len(),
{
    line_of_is_a_line(entries, id);
    let shorter = entries.drop_last();
    if i < shorter.len() {
        assert(shorter[i] == entries[i]);
        listed_selection_is_shown(shorter, id, i);
        line_of_is_a_line(shorter, id);
        if line_of(shorter, id) is None {
            assert(effective_line(shorter, Some(id)) == 0);
            no_line_without_id(shorter, id, i);
        }
    }
}

proof fn no_line_without_id(entries: Seq<RecipeListEntry>, id: Seq<char>, i: int)
    requires
        0 <= i < entries.len(),
        line_of(entries, id) is None,
    ensures
        entries[i].recipe.id@ != id,
    decreases entries.len(),
{
    if i < entries.len() - 1 {
        assert(entries.drop_last()[i] == entries[i]);
        no_line_without_id(entries.drop_last(), id, i);
    }
}

proof fn line_of_is_a_line(entries: Seq<RecipeListEntry>, id: Seq<char>)
    ensures
        line_of(entries, id) matches Some(i) ==> 0 <= i < entries.len()
            && entries[i].recipe.id@ == id,
    decreases entries.len(),
{
    if entries.len() > 0 {
        line_of_is_a_line(entries.drop_last(), id);
    }
}

/// The dot at the end of a row.
#[derive(Clone, Copy, Debug, PartialEq, Eq, Structural)]
pub enum StatusDot {
    Craftable,
    Station,
    Missing,
}

/// The background of a row.
#[derive(Clone, Copy, Debug, PartialEq, Eq, Structural)]
pub enum RowFill {
    Selected,
    Hovered,
    Plain,
}

/// What a row of the list shows.
pub struct ListRow {
    pub title: String,
    pub dot: StatusDot,
    pub dimmed: bool,
    pub fill: RowFill,
    /// Why the recipe is blocked.
    pub hint: Option<String>,
}

/// What blocks a recipe, as its dot tells: nothing, the station, or materials.
pub open spec fn dot_of(craftable: bool, station_met: bool) -> StatusDot {
    if craftable {
        StatusDot::Craftable
    } else if !station_met {
        StatusDot::Station
    } else {
        StatusDot::Missing
    }
}

/// The hint that goes with a dot.
pub open spec fn dot_hint(dot: StatusDot) -> Option<Seq<char>> {
    match dot {
        StatusDot::Craftable => None,
        StatusDot::Station => Some("Needs a crafting station in range."@),
        StatusDot::Missing => Some("Missing materials."@),
    }
}

/// Decides what a row of the list shows.
pub fn list_row(entry: &RecipeListEntry, selected: bool, hovered: bool) -> (r: ListRow)
    ensures
        r.title@ == title_text(*entry.recipe),
        r.dot == dot_of(entry.craftable, entry.station_met),
        r.dimmed == !entry.craftable,
        r.fill == if selected {
            RowFill::Selected
        } else if hovered {
            RowFill::Hovered
        } else {
            RowFill::Plain
        },
        opt_text(r.hint) == dot_hint(dot_of(entry.craftable, entry.station_met)),
{
    let dot = if entry.craftable {
        StatusDot::Craftable
    } else if !entry.station_met {
        StatusDot::Station
    } else {
        StatusDot::Missing
    };
    let hint: Option<String> = match dot {
        StatusDot::Craftable => None,
        StatusDot::Station => Some("Needs a crafting station in range.".to_owned()),
        StatusDot::Missing => Some("Missing materials.".to_owned()),
    };
    ListRow {
        title: recipe_title(entry.recipe),
        dot,
        dimmed: !entry.craftable,
        fill: if selected {
            RowFill::Selected
        } else if hovered {
            RowFill::Hovered
        } else {
            RowFill::Plain
        },
        hint,
    }
}

/// The state that the browser keeps between frames.
pub struct CraftingUiState {
    pub filter: RecipeFilter,
    pub selected_recipe: Option<String>,
    pub quantities: QuantityBook,
    pub scroll_reset_pending: bool,
}

/// One frame of the browser body.
pub struct BrowserFrame<'a> {
    pub entries: Vec<RecipeListEntry<'a>>,
    /// The line that the card shows.
    pub selected: usize,
    pub queue_full: bool,
    /// Distinguishes the scroll position of a freshly opened list.
    pub scroll_salt: u64,
    pub card: DetailCard,
}

/// The card shows the given line: its texts and controls follow from the
/// quantity field as it stood before the frame.
pub open spec fn card_shows(
    card: DetailCard,
    registry: Registry,
    category: Seq<char>,
    entry: RecipeListEntry,
    inventory: Option<&PlayerInventoryState>,
    queue_full: bool,
    before: Map<Seq<char>, Seq<char>>,
    after: Map<Seq<char>, Seq<char>>,
    events: ControlEvents,
) -> bool {
    let text = only_digits(shown_text(before, entry.recipe.id@));
    let quantity = counted(quantity_of(text)) as u16;
    let max_batch = batch_ceiling(inventory, entry.recipe.inputs@) as u16;
    let typed = quantity_of(edited_text(text, quantity, events));
    let reason = block_reason(
        *entry.recipe,
        entry.craftable,
        entry.station_met,
        queue_full,
        max_batch,
        typed,
    );
    &&& card.title@ == title_text(*entry.recipe)
    &&& card.meta@ == meta_text(category, entry.recipe.craft_millis, quantity)
    &&& opt_text(card.station) == station_chunk_text(entry.recipe.station, entry.station_met)
    &&& card.description@ == entry.recipe.description@
    &&& card.ingredients@.len() == entry.recipe.inputs@.len()
    &&& forall|i: int|
        0 <= i < card.ingredients@.len() ==> is_line_of(
            #[trigger] card.ingredients@[i],
            registry.items@,
            inventory,
            entry.recipe.inputs@[i],
            quantity,
        )
    &&& card.time@ == time_text(entry.recipe.craft_millis, quantity)
    &&& opt_text(card.controls.disabled) == reason
    &&& (card.controls.label@, card.controls.kind) == button_text(
        entry.craftable,
        entry.station_met,
        queue_full,
        reason is Some,
        quantity,
    )
    &&& card.controls.max_hint@ == max_hint_text(*entry.recipe, max_batch)
    &&& card.controls.enqueue == requested(reason, typed, events.craft)
    &&& after == before.insert(
        entry.recipe.id@,
        settled_text(text, quantity, max_batch, events),
    )
}

/// The label of a recipe group; empty where the group has none.
pub open spec fn category_text(labels: Seq<String>, recipe: RecipeDefinition) -> Seq<char> {
    if (recipe.category.index as int) < labels.len() {
        labels[recipe.category.index as int]@
    } else {
        Seq::empty()
    }
}

fn category_label(labels: &Vec<String>, recipe: &RecipeDefinition) -> (r: String)
    ensures
        r@ == category_text(labels@, *recipe),
{
    let i: usize = recipe.category.index as usize;
    if i < labels.len() {
        labels[i].clone()
    } else {
        String::new()
    }
}

/// The lines of the browser under its filter.
pub open spec fn browser_lines<'a>(
    registry: Registry,
    filter: RecipeFilter,
    inventory: Option<&PlayerInventoryState>,
    stations: StationContext,
    pin_tutorial: bool,
) -> Seq<RecipeListEntry<'a>> {
    stable_sort(
        listed(registry, filter.wanted(), registry.recipes@, inventory, stations),
        list_order(registry.tutorial_recipes@, pin_tutorial),
    )
}

/// Runs one frame of the browser body. Nothing is shown where no recipe passes
/// the filter, and then nothing is remembered either. A click on a row becomes
/// the selection of the next frame; the stored selection is never replaced by
/// the fallback to the top line.
pub fn crafting_body<'a>(
    registry: &'a Registry,
    state: &mut CraftingUiState,
    inventory: Option<&PlayerInventoryState>,
    queue_len: usize,
    queue_capacity: usize,
    stations: &StationContext,
    pin_tutorial: bool,
    clicked_row: Option<usize>,
    events: &ControlEvents,
) -> (r: Option<BrowserFrame<'a>>)
    ensures
        ({
            let lines = browser_lines(
                *registry,
                old(state).filter,
                inventory,
                *stations,
                pin_tutorial,
            );
            &&& r is None <==> lines.len() == 0
            &&& r is None ==> *final(state) == *old(state)
            &&& r matches Some(frame) ==> {
                &&& frame.entries@ == lines
                &&& frame.selected == effective_line(
                    lines,
                    opt_text(old(state).selected_recipe),
                )
                &&& frame.selected < lines.len()
                &&& frame.queue_full == (queue_len >= queue_capacity)
                &&& frame.scroll_salt == if old(state).scroll_reset_pending {
                    1int
                } else {
                    0
                }
                &&& !final(state).scroll_reset_pending
                &&& final(state).filter == old(state).filter
                &&& opt_text(final(state).selected_recipe) == match clicked_row {
                    Some(row) => if row < lines.len() {
                        Some(lines[row as int].recipe.id@)
                    } else {
                        opt_text(old(state).selected_recipe)
                    },
                    None => opt_text(old(state).selected_recipe),
                }
                &&& card_shows(
                    frame.card,
                    *registry,
                    category_text(
                        registry.category_labels@,
                        *lines[frame.selected as int].recipe,
                    ),
                    lines[frame.selected as int],
                    inventory,
                    frame.queue_full,
                    old(state).quantities@,
                    final(state).quantities@,
                    *events,
                )
                &&& frame.card.controls.enqueue is Some ==> events.craft && queue_len
                    < queue_capacity
                &&& clicked_row is None ==> opt_text(final(state).selected_recipe) == opt_text(
                    old(state).selected_recipe,
                )
            }
        }),
{
    let entries = collect_sorted_recipes(
        registry,
        &state.filter,
        inventory,
        stations,
        pin_tutorial,
    );
    if entries.len() == 0 {
        return None;
    }
    let selected = effective_selection_index(&entries, &state.selected_recipe);
    let queue_full = queue_len >= queue_capacity;
    let scroll_salt: u64 = if state.scroll_reset_pending {
        1
    } else {
        0
    };
    state.scroll_reset_pending = false;
    if let Some(row) = clicked_row {
        if row < entries.len() {
            state.selected_recipe = Some(entries[row].recipe.id.clone());
        }
    }
    let entry = entries[selected];
    let category = category_label(&registry.category_labels, entry.recipe);
    let card = recipe_details(
        &registry.items,
        category.as_str(),
        &entry,
        inventory,
        queue_full,
        &mut state.quantities,
        events,
    );
    Some(BrowserFrame { entries, selected, queue_full, scroll_salt, card })
}

/// The copy that stands in place of an empty list.
pub fn empty_list_text() -> (r: String)
    ensures
        r@ == "No recipes match your filter."@,
{
    "No recipes match your filter.".to_owned()
}

/// The card shows the first line of the stored recipe, and the top line where the
/// recipe is not listed or none is stored.
pub proof fn first_line_of_the_selection_is_shown(
    entries: Seq<RecipeListEntry>,
    id: Seq<char>,
    k: int,
)
    requires
        0 <= k < entries.len(),
        entries[k].recipe.id@ == id,
        forall|i: int| 0 <= i < k ==> (#[trigger] entries[i]).recipe.id@ != id,
    ensures
        effective_line(entries, Some(id)) == k,
    decreases entries.len(),
{
    let shorter = entries.drop_last();
    if k == entries.len() - 1 {
        line_of_is_a_line(shorter, id);
        if let Some(i) = line_of(shorter, id) {
            assert(shorter[i] == entries[i]);
        }
    } else {
        assert(shorter[k] == entries[k]);
        assert forall|i: int| 0 <= i < k implies (#[trigger] shorter[i]).recipe.id@ != id by {
            assert(shorter[i] == entries[i]);
        }
        first_line_of_the_selection_is_shown(shorter, id, k);
        if line_of(shorter, id) is None {
            no_line_without_id(shorter, id, k);
        }
    }
}

/// Without a stored recipe, or with one that is not listed, the card shows the top.
pub proof fn top_line_is_shown_otherwise(entries: Seq<RecipeListEntry>, id: Seq<char>)
    requires
        forall|i: int| 0 <= i < entries.len() ==> (#[trigger] entries[i]).recipe.id@ != id,
    ensures
        effective_line(entries, Some(id)) == 0,
        effective_line(entries, None) == 0,
{
    line_of_is_a_line(entries, id);
}

/// The dot tells what is missing: nothing of what can be made, the station where that
/// is out of reach, and materials otherwise; only what cannot be made has a hint.
pub proof fn dot_tells_what_is_missing(craftable: bool, station_met: bool)
    ensures
        dot_of(craftable, station_met) == StatusDot::Craftable <==> craftable,
        dot_of(craftable, station_met) == StatusDot::Station <==> !craftable && !station_met,
        dot_hint(dot_of(craftable, station_met)) is None <==> craftable,
        dot_hint(StatusDot::Station) == Some("Needs a crafting station in range."@),
        dot_hint(StatusDot::Missing) == Some("Missing materials."@),
{
}

/// A recipe goes by the label of its own group.
pub proof fn group_label_is_its_own(labels: Seq<String>, recipe: RecipeDefinition, k: int)
    requires
        recipe.category.index == k,
    ensures
        0 <= k < labels.len() ==> category_text(labels, recipe) == labels[k]@,
        k >= labels.len() ==> category_text(labels, recipe).len() == 0,
{
}

/// A frame changes the field of the shown recipe alone; every other keeps its text.
pub proof fn other_fields_are_left_alone(
    card: DetailCard,
    registry: Registry,
    category: Seq<char>,
    entry: RecipeListEntry,
    inventory: Option<&PlayerInventoryState>,
    queue_full: bool,
    before: Map<Seq<char>, Seq<char>>,
    after: Map<Seq<char>, Seq<char>>,
    events: ControlEvents,
    id: Seq<char>,
)
    requires
        card_shows(
            card,
            registry,
            category,
            entry,
            inventory,
            queue_full,
            before,
            after,
            events,
        ),
        id != entry.recipe.id@,
    ensures
        after.dom().contains(id) == before.dom().contains(id),
        before.dom().contains(id) ==> after[id] == before[id],
        after.dom().contains(entry.recipe.id@),
        !events.craft ==> card.controls.enqueue is None,
        card.controls.enqueue is Some ==> !queue_full && card.controls.disabled is None,
        card.ingredients@.len() == entry.recipe.inputs@.len(),
        card.description@ == entry.recipe.description@,
{
}

} // verus!
