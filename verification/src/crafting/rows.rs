//! The row layout of the recipe list, in which every row carries its own
//! stepper, a button that crafts the largest batch at once, and a craft button.
use vstd::prelude::*;
use crate::crafting::details::{
    ButtonKind, ControlEvents, after_plus, counted, display_quantity, edited_text,
    ingredient_status, meta_text, quantity_block, quantity_reason, recipe_meta, recipe_title,
    requested, status_of, title_text,
};
use crate::crafting::quantities::{QuantityBook, shown_text};
use crate::crafting::recipes::{
    CraftingInput, MAX_CRAFT_BATCH_SIZE, RecipeDefinition, batch_ceiling, max_craftable_batch,
};
use crate::items::{ItemDefinition, PlayerInventoryState, display_name, name_of};
use crate::text::{
    concat3, concat5, decimal, digits, keep_digits, number_of_digits, only_digits, opt_text,
    parse_quantity, quantity_of,
};

verus! {

/// The colour of a piece of text.
#[derive(Clone, Copy, Debug, PartialEq, Eq, Structural)]
pub enum Tone {
    Plain,
    Muted,
    Missing,
}

/// A piece of text in one colour.
pub struct TextChunk {
    pub text: String,
    pub tone: Tone,
}

/// What a list of pieces holds.
pub open spec fn chunk_views(chunks: Seq<TextChunk>) -> Seq<(Seq<char>, Tone)> {
    chunks.map_values(|c: TextChunk| (c.text@, c.tone))
}

/// What stands behind a material: how many are missing, or how many there are.
pub open spec fn margin_chunk(have: u16, needed: u16) -> (Seq<char>, Tone) {
    if have < needed {
        ("  (need "@ + digits((needed - have) as nat) + " more)"@, Tone::Missing)
    } else {
        ("  ("@ + digits(have as nat) + "/"@ + digits(needed as nat) + ")"@, Tone::Muted)
    }
}

/// The pieces of the material line of a batch: the cost of each material, and
/// behind it what is missing or what there is.
pub open spec fn input_chunks(
    items: Seq<ItemDefinition>,
    inventory: Option<&PlayerInventoryState>,
    inputs: Seq<CraftingInput>,
    multiplier: u16,
) -> Seq<(Seq<char>, Tone)>
    decreases inputs.len(),
{
    if inputs.len() == 0 {
        Seq::empty()
    } else {
        let input = inputs.last();
        let status = status_of(inventory, input, multiplier);
        let before = input_chunks(items, inventory, inputs.drop_last(), multiplier);
        let separated = if inputs.len() > 1 {
            before.push(("  ·  "@, Tone::Muted))
        } else {
            before
        };
        separated.push(
            ("×"@ + digits(status.needed as nat) + " "@ + name_of(items, input.item_id@), Tone::Plain),
        ).push(margin_chunk(status.have, status.needed))
    }
}

/// Writes what stands behind a material.
fn write_margin(have: u16, needed: u16) -> (r: TextChunk)
    ensures
        (r.text@, r.tone) == margin_chunk(have, needed),
{
    if have < needed {
        let missing = decimal((needed - have) as u64);
        TextChunk { text: concat3("  (need ", missing.as_str(), " more)"), tone: Tone::Missing }
    } else {
        let there = decimal(have as u64);
        let cost = decimal(needed as u64);
        TextChunk {
            text: concat5("  (", there.as_str(), "/", cost.as_str(), ")"),
            tone: Tone::Muted,
        }
    }
}

/// Writes the material line of a batch.
pub fn inputs_line(
    items: &Vec<ItemDefinition>,
    inventory: Option<&PlayerInventoryState>,
    recipe: &RecipeDefinition,
    multiplier: u16,
) -> (r: Vec<TextChunk>)
    ensures
        chunk_views(r@) == input_chunks(items@, inventory, recipe.inputs@, multiplier),
{
    let mut chunks: Vec<TextChunk> = Vec::new();
    let mut i: usize = 0;
    proof {
        assert(recipe.inputs@.take(0) =~= Seq::<CraftingInput>::empty());
        assert(chunk_views(chunks@) =~= Seq::<(Seq<char>, Tone)>::empty());
    }
    while i < recipe.inputs.len()
        invariant
            i <= recipe.inputs.len(),
            chunk_views(chunks@) == input_chunks(
                items@,
                inventory,
                recipe.inputs@.take(i as int),
                multiplier,
            ),
        decreases recipe.inputs.len() - i,
    {
        let input = &recipe.inputs[i];
        proof {
            assert(recipe.inputs@.take(i + 1).drop_last() =~= recipe.inputs@.take(i as int));
            assert(recipe.inputs@.take(i + 1).last() == *input);
            assert(recipe.inputs@.take(i + 1).len() == i + 1);
        }
        if i > 0 {
            let ghost before = chunks@;
            chunks.push(TextChunk { text: "  ·  ".to_owned(), tone: Tone::Muted });
            proof {
                assert(chunk_views(chunks@) =~= chunk_views(before).push(("  ·  "@, Tone::Muted)));
            }
        }
        let status = ingredient_status(inventory, input, multiplier);
        let cost = decimal(status.needed as u64);
        let name = display_name(items, input.item_id.as_str());
        let mut base = concat3("×", cost.as_str(), " ");
        base.append(name.as_str());
        let ghost before = chunks@;
        let ghost base_view = base@;
        chunks.push(TextChunk { text: base, tone: Tone::Plain });
        let margin = write_margin(status.have, status.needed);
        let ghost margin_view = (margin.text@, margin.tone);
        chunks.push(margin);
        proof {
            assert(chunk_views(chunks@) =~= chunk_views(before).push((base_view, Tone::Plain)).push(
                margin_view,
            ));
        }
        i = i + 1;
    }
    proof {
        assert(recipe.inputs@.take(i as int) =~= recipe.inputs@);
    }
    chunks
}

/// Why the largest batch cannot be crafted at once.
pub open spec fn max_block_reason(
    recipe: RecipeDefinition,
    queue_full: bool,
    max_batch: u16,
) -> Option<Seq<char>> {
    if queue_full {
        Some("The crafting queue is full."@)
    } else if max_batch == 0 {
        Some("You don't have the materials to craft "@ + recipe.name@ + "."@)
    } else {
        None
    }
}

/// What the max button of a row tells on hover: why it does nothing, or what
/// it does.
pub open spec fn max_row_hint(recipe: RecipeDefinition, queue_full: bool, max_batch: u16) -> Seq<
    char,
> {
    match max_block_reason(recipe, queue_full, max_batch) {
        Some(reason) => reason,
        None => "Craft "@ + digits(max_batch as nat) + " now (the most you can make)"@,
    }
}

/// Why the craft button of a row does nothing.
pub open spec fn row_block_reason(
    recipe: RecipeDefinition,
    craftable: bool,
    queue_full: bool,
    max_batch: u16,
    typed: Option<u16>,
) -> Option<Seq<char>> {
    if queue_full {
        Some("The crafting queue is full."@)
    } else if !craftable {
        Some("You don't have the materials to craft "@ + recipe.name@ + "."@)
    } else {
        quantity_reason(recipe, max_batch, typed)
    }
}

/// What the craft button of a row reads.
pub open spec fn row_button(craftable: bool, queue_full: bool, blocked: bool) -> (
    Seq<char>,
    ButtonKind,
) {
    if !craftable {
        ("Missing"@, ButtonKind::Secondary)
    } else if queue_full {
        ("Queue full"@, ButtonKind::Secondary)
    } else if blocked {
        ("Craft"@, ButtonKind::Secondary)
    } else {
        ("Craft"@, ButtonKind::Primary)
    }
}

/// Everything that a row shows and does in a frame.
pub struct RecipeRow {
    pub title: String,
    pub meta: String,
    pub inputs: Vec<TextChunk>,
    pub max_hint: String,
    pub disabled: Option<String>,
    pub label: String,
    pub kind: ButtonKind,
    /// The batch that the max button puts into the queue.
    pub enqueue_max: Option<u16>,
    /// The batch that the craft button puts into the queue.
    pub enqueue: Option<u16>,
}

/// Runs the row of a recipe for one frame: opens its quantity field, writes the
/// texts for the quantity typed so far, and handles the controls.
pub fn recipe_row(
    items: &Vec<ItemDefinition>,
    category: &str,
    recipe: &RecipeDefinition,
    inventory: Option<&PlayerInventoryState>,
    craftable: bool,
    queue_full: bool,
    book: &mut QuantityBook,
    events: &ControlEvents,
) -> (r: RecipeRow)
    ensures
        ({
            let text = only_digits(shown_text(old(book)@, recipe.id@));
            let quantity = counted(quantity_of(text)) as u16;
            let max_batch = batch_ceiling(inventory, recipe.inputs@) as u16;
            let edited = edited_text(text, quantity, *events);
            let typed = quantity_of(edited);
            let reason = row_block_reason(*recipe, craftable, queue_full, max_batch, typed);
            &&& r.title@ == title_text(*recipe)
            &&& r.meta@ == meta_text(category@, recipe.craft_millis, quantity)
            &&& chunk_views(r.inputs@) == input_chunks(
                items@,
                inventory,
                recipe.inputs@,
                quantity,
            )
            &&& r.max_hint@ == max_row_hint(*recipe, queue_full, max_batch)
            &&& r.enqueue_max == requested(
                max_block_reason(*recipe, queue_full, max_batch),
                Some(max_batch),
                events.max,
            )
            &&& opt_text(r.disabled) == reason
            &&& (r.label@, r.kind) == row_button(craftable, queue_full, reason is Some)
            &&& r.enqueue == requested(reason, typed, events.craft)
            &&& final(book)@ == old(book)@.insert(
                recipe.id@,
                after_plus(edited, max_batch, events.plus),
            )
            &&& r.enqueue is Some ==> events.craft && craftable && !queue_full && r.disabled
                is None
            &&& typed is Some && typed->0 <= max_batch && typed->0 <= MAX_CRAFT_BATCH_SIZE
                && craftable && !queue_full && events.craft ==> r.enqueue == typed
            &&& r.enqueue_max is Some <==> events.max && !queue_full && max_batch > 0
            &&& r.enqueue_max is Some ==> r.enqueue_max == Some(max_batch)
            &&& r.kind == ButtonKind::Primary <==> r.disabled is None
        }),
{
    let max_batch = max_craftable_batch(inventory, recipe);
    let text = book.open_field(recipe.id.as_str());
    let ghost opened = text@;
    let quantity = display_quantity(parse_quantity(text.as_str()));
    let inputs = inputs_line(items, inventory, recipe, quantity);
    let most = decimal(max_batch as u64);
    let (hint, max_enabled): (String, bool) = if queue_full {
        ("The crafting queue is full.".to_owned(), false)
    } else if max_batch == 0 {
        (concat3("You don't have the materials to craft ", recipe.name.as_str(), "."), false)
    } else {
        (concat3("Craft ", most.as_str(), " now (the most you can make)"), true)
    };
    let enqueue_max: Option<u16> = if events.max && max_enabled {
        Some(max_batch)
    } else {
        None
    };
    let mut current: String = text;
    if events.minus && quantity > 1 {
        proof {
            number_of_digits((quantity - 1) as nat);
        }
        current = decimal((quantity - 1) as u64);
    }
    if let Some(typed) = &events.edited {
        current = keep_digits(typed.as_str());
    }
    let typed_qty = parse_quantity(current.as_str());
    let mut shown: String = current;
    if let Some(n) = typed_qty {
        if events.plus && n < max_batch && n < MAX_CRAFT_BATCH_SIZE {
            shown = decimal((n + 1) as u64);
        }
    }
    let disabled: Option<String> = if queue_full {
        Some("The crafting queue is full.".to_owned())
    } else if !craftable {
        Some(concat3("You don't have the materials to craft ", recipe.name.as_str(), "."))
    } else {
        quantity_block(recipe, max_batch, typed_qty)
    };
    let (label, kind): (String, ButtonKind) = if !craftable {
        ("Missing".to_owned(), ButtonKind::Secondary)
    } else if queue_full {
        ("Queue full".to_owned(), ButtonKind::Secondary)
    } else if disabled.is_some() {
        ("Craft".to_owned(), ButtonKind::Secondary)
    } else {
        ("Craft".to_owned(), ButtonKind::Primary)
    };
    let enqueue = if events.craft && disabled.is_none() {
        typed_qty
    } else {
        None
    };
    let ghost settled = shown@;
    book.set(recipe.id.as_str(), shown);
    proof {
        assert(book@ =~= old(book)@.insert(recipe.id@, settled));
    }
    RecipeRow {
        title: recipe_title(recipe),
        meta: recipe_meta(category, recipe.craft_millis, quantity),
        inputs,
        max_hint: hint,
        disabled,
        label,
        kind,
        enqueue_max,
        enqueue,
    }
}

/// The max button of a row asks for a batch exactly where there is something to
/// craft and room in the queue, and then for the largest.
pub proof fn max_button_asks_for_the_largest_batch(
    recipe: RecipeDefinition,
    queue_full: bool,
    max_batch: u16,
)
    ensures
        requested(max_block_reason(recipe, queue_full, max_batch), Some(max_batch), true) == if (
        queue_full || max_batch == 0) {
            None::<u16>
        } else {
            Some(max_batch)
        },
{
}

/// The material line takes three pieces for each material: what it costs, what is there
/// or missing of it, and between two of them a dot; they come in the order of the
/// recipe.
pub proof fn material_line_goes_through_the_recipe(
    items: Seq<ItemDefinition>,
    inventory: Option<&PlayerInventoryState>,
    inputs: Seq<CraftingInput>,
    multiplier: u16,
    i: int,
)
    requires
        0 <= i < inputs.len(),
    ensures
        ({
            let chunks = input_chunks(items, inventory, inputs, multiplier);
            let status = status_of(inventory, inputs[i], multiplier);
            &&& chunks.len() == 3 * inputs.len() - 1
            &&& chunks[3 * i] == (
                "×"@ + digits(status.needed as nat) + " "@ + name_of(items, inputs[i].item_id@),
                Tone::Plain,
            )
            &&& chunks[3 * i + 1].1 == Tone::Missing <==> status.have < status.needed
            &&& chunks[3 * i + 1].1 == Tone::Muted <==> status.have >= status.needed
            &&& chunks[3 * i + 1] == margin_chunk(status.have, status.needed)
            &&& i < inputs.len() - 1 ==> chunks[3 * i + 2] == ("  ·  "@, Tone::Muted)
        }),
    decreases inputs.len(),
{
    let shorter = inputs.drop_last();
    let rest = input_chunks(items, inventory, shorter, multiplier);
    if shorter.len() > 0 {
        material_line_goes_through_the_recipe(
            items,
            inventory,
            shorter,
            multiplier,
            if i < shorter.len() {
                i
            } else {
                0
            },
        );
    }
    if i < shorter.len() {
        assert(shorter[i] == inputs[i]);
    }
}

/// Behind a material stands how many more are needed, or what is there of how many.
pub proof fn margin_tells_what_is_missing(have: u16, missing: u16)
    requires
        have + missing <= u16::MAX,
    ensures
        missing > 0 ==> margin_chunk(have, (have + missing) as u16) == (
            "  (need "@ + digits(missing as nat) + " more)"@,
            Tone::Missing,
        ),
        margin_chunk((have + missing) as u16, have) == (
            "  ("@ + digits((have + missing) as nat) + "/"@ + digits(have as nat) + ")"@,
            Tone::Muted,
        ),
{
}

/// Nothing stands in the way of an affordable batch with room in the queue, and
/// anything else is told; a full queue is told before missing materials.
pub proof fn row_crafts_every_affordable_batch(
    recipe: RecipeDefinition,
    craftable: bool,
    queue_full: bool,
    max_batch: u16,
    typed: Option<u16>,
)
    ensures
        row_block_reason(recipe, craftable, queue_full, max_batch, typed) is None <==> craftable
            && !queue_full && typed is Some && typed->0 <= max_batch && typed->0
            <= MAX_CRAFT_BATCH_SIZE,
        row_block_reason(recipe, craftable, true, max_batch, typed) == Some(
            "The crafting queue is full."@,
        ),
        row_block_reason(recipe, false, false, max_batch, typed) == Some(
            "You don't have the materials to craft "@ + recipe.name@ + "."@,
        ),
{
}

/// The button of a row is ready exactly where it crafts; elsewhere it tells the missing
/// materials before the full queue.
pub proof fn row_button_is_ready_iff_it_crafts(
    recipe: RecipeDefinition,
    craftable: bool,
    queue_full: bool,
    max_batch: u16,
    typed: Option<u16>,
)
    ensures
        ({
            let reason = row_block_reason(recipe, craftable, queue_full, max_batch, typed);
            let button = row_button(craftable, queue_full, reason is Some);
            &&& button.1 == ButtonKind::Primary <==> reason is None
            &&& button.1 != ButtonKind::Danger
            &&& !craftable ==> button.0 == "Missing"@
            &&& craftable && queue_full ==> button.0 == "Queue full"@
            &&& craftable && !queue_full ==> button.0 == "Craft"@
        }),
{
}

/// The max button tells the batch it would craft, or why there is none.
pub proof fn max_button_tells_its_batch(
    recipe: RecipeDefinition,
    queue_full: bool,
    max_batch: u16,
)
    ensures
        !queue_full && max_batch > 0 ==> max_row_hint(recipe, queue_full, max_batch) == "Craft "@
            + digits(max_batch as nat) + " now (the most you can make)"@,
        queue_full ==> max_row_hint(recipe, queue_full, max_batch)
            == "The crafting queue is full."@,
        !queue_full && max_batch == 0 ==> max_row_hint(recipe, queue_full, max_batch)
            == "You don't have the materials to craft "@ + recipe.name@ + "."@,
{
}

/// A piece of text reads as its text and its colour.
pub proof fn pieces_read_text_and_colour(chunks: Seq<TextChunk>, i: int)
    requires
        0 <= i < chunks.len(),
    ensures
        chunk_views(chunks).len() == chunks.len(),
        chunk_views(chunks)[i].0 == chunks[i].text@,
        chunk_views(chunks)[i].1 == chunks[i].tone,
{
}

} // verus!
