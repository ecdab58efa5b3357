//! The detail card of the selected recipe: its texts, the per-material lines,
//! the batch stepper and the craft button.
use vstd::prelude::*;
use crate::crafting::filter::RecipeListEntry;
use crate::crafting::quantities::{QuantityBook, shown_text};
use crate::crafting::recipes::{
    CraftingInput, MAX_CRAFT_BATCH_SIZE, RecipeDefinition, RecipeStation, affords, affords_input,
    batch_ceiling, held, max_craftable_batch,
};
use crate::items::{
    ItemDefinition, PlayerInventoryState, carried_amount, count_in_inventory, display_name,
    name_of,
};
use crate::text::{
    concat2, concat3, concat5, decimal, digits, is_digit, keep_digits, number_of_digits,
    only_digits, only_digits_keeps_digits, opt_text, parse_quantity, quantity_of, written_quantity_is_read_back,
};

verus! {

/// How a button looks.
#[derive(Clone, Copy, Debug, PartialEq, Eq, Structural)]
pub enum ButtonKind {
    Primary,
    Secondary,
    Danger,
}

/// What a batch needs of one material, and what the player carries of it.
#[derive(Clone, Copy, Debug, PartialEq, Eq, Structural)]
pub struct IngredientStatus {
    pub have: u16,
    pub needed: u16,
}

impl IngredientStatus {
    /// Whether the player carries too little.
    pub fn short(&self) -> (r: bool)
        ensures
            r == (self.have < self.needed),
    {
        self.have < self.needed
    }
}

/// What a batch needs of one material, up to what 16 bits can hold; a batch of
/// none counts as a batch of one.
pub open spec fn batch_cost(quantity: u16, multiplier: u16) -> int {
    let times = if multiplier == 0 {
        1int
    } else {
        multiplier as int
    };
    if quantity * times > 65535 {
        65535
    } else {
        quantity * times
    }
}

/// The numbers of one material line for a batch.
pub open spec fn status_of(
    inventory: Option<&PlayerInventoryState>,
    input: CraftingInput,
    multiplier: u16,
) -> IngredientStatus {
    IngredientStatus {
        have: match inventory {
            Some(carried) => held(*carried, input.item_id@) as u16,
            None => 0,
        },
        needed: batch_cost(input.quantity, multiplier) as u16,
    }
}

/// Computes the numbers of one material line for a batch of `multiplier`.
pub fn ingredient_status(
    inventory: Option<&PlayerInventoryState>,
    input: &CraftingInput,
    multiplier: u16,
) -> (r: IngredientStatus)
    ensures
        r == status_of(inventory, *input, multiplier),
        r.needed == batch_cost(input.quantity, multiplier),
        inventory is Some ==> r.have == held(*inventory->0, input.item_id@),
{
    let have: u16 = match inventory {
        Some(carried) => count_in_inventory(carried, input.item_id.as_str()),
        None => 0,
    };
    let times: u32 = if multiplier == 0 {
        1
    } else {
        multiplier as u32
    };
    proof {
        assert(input.quantity * times <= 65535 * 65535) by (nonlinear_arith)
            requires
                0 <= input.quantity <= 65535,
                0 <= times <= 65535,
        ;
        assert(input.quantity * times >= 0) by (nonlinear_arith)
            requires
                0 <= input.quantity,
                0 <= times,
        ;
    }
    let total: u32 = (input.quantity as u32) * times;
    let needed: u16 = if total > 65535 {
        65535
    } else {
        total as u16
    };
    IngredientStatus { have, needed }
}

/// A recipe is affordable exactly where no material line of a single batch is
/// short.
pub proof fn affordable_iff_no_line_is_short(
    inventory: PlayerInventoryState,
    inputs: Seq<CraftingInput>,
)
    ensures
        affords(inventory, inputs, 1) <==> forall|i: int|
            0 <= i < inputs.len() ==> {
                let status = status_of(Some(&inventory), #[trigger] inputs[i], 1);
                status.have >= status.needed
            },
{
    assert forall|i: int| 0 <= i < inputs.len() implies (affords_input(
        inventory,
        #[trigger] inputs[i],
        1,
    ) <==> status_of(Some(&inventory), inputs[i], 1).have >= status_of(
        Some(&inventory),
        inputs[i],
        1,
    ).needed) by {
        let quantity = inputs[i].quantity;
        let times = 1u16 as int;
        assert(quantity * times == quantity) by (nonlinear_arith)
            requires
                times == 1,
        ;
        assert(1 * quantity == quantity) by (nonlinear_arith);
        assert(batch_cost(quantity, 1) == quantity as int);
    }
    if affords(inventory, inputs, 1) {
        assert forall|i: int| 0 <= i < inputs.len() implies {
            let status = status_of(Some(&inventory), #[trigger] inputs[i], 1);
            status.have >= status.needed
        } by {
            assert(affords_input(inventory, inputs[i], 1));
        }
    }
}

/// The label of a fulfilled station requirement.
pub open spec fn met_label(station: RecipeStation) -> Option<Seq<char>> {
    match station {
        RecipeStation::Hand => None,
        RecipeStation::Workbench { min_tier } => Some("Workbench Tier "@ + digits(min_tier as nat)),
    }
}

/// The label of an unfulfilled station requirement.
pub open spec fn unmet_label(station: RecipeStation) -> Option<Seq<char>> {
    match station {
        RecipeStation::Hand => None,
        RecipeStation::Workbench { min_tier } => Some(
            "Requires Workbench Tier "@ + digits(min_tier as nat),
        ),
    }
}

/// The subdued label of a fulfilled station requirement; none for recipes made
/// by hand.
pub fn station_met_label(station: RecipeStation) -> (r: Option<String>)
    ensures
        opt_text(r) == met_label(station),
{
    match station {
        RecipeStation::Hand => None,
        RecipeStation::Workbench { min_tier } => {
            let tier = decimal(min_tier as u64);
            Some(concat2("Workbench Tier ", tier.as_str()))
        },
    }
}

/// The label of an unfulfilled station requirement; none for recipes made by
/// hand.
pub fn station_requirement(station: RecipeStation) -> (r: Option<String>)
    ensures
        opt_text(r) == unmet_label(station),
{
    match station {
        RecipeStation::Hand => None,
        RecipeStation::Workbench { min_tier } => {
            let tier = decimal(min_tier as u64);
            Some(concat2("Requires Workbench Tier ", tier.as_str()))
        },
    }
}

/// Milliseconds as whole seconds: the nearest, and the even one of two equally
/// near.
pub open spec fn nearest_seconds(millis: nat) -> nat {
    let whole = millis / 1000;
    let rest = millis % 1000;
    if rest < 500 || (rest == 500 && whole % 2 == 0) {
        whole
    } else {
        whole + 1
    }
}

/// Rounds milliseconds to whole seconds.
pub fn whole_seconds(millis: u64) -> (r: u64)
    ensures
        r == nearest_seconds(millis as nat),
{
    let whole: u64 = millis / 1000;
    let rest: u64 = millis % 1000;
    if rest < 500 || (rest == 500 && whole % 2 == 0) {
        whole
    } else {
        whole + 1
    }
}

/// The title of a recipe, with its output multiplier where it has one.
pub open spec fn title_text(recipe: RecipeDefinition) -> Seq<char> {
    if recipe.output_quantity > 1 {
        recipe.name@ + " ×"@ + digits(recipe.output_quantity as nat)
    } else {
        recipe.name@
    }
}

/// Writes the title of a recipe.
pub fn recipe_title(recipe: &RecipeDefinition) -> (r: String)
    ensures
        r@ == title_text(*recipe),
{
    if recipe.output_quantity > 1 {
        let count = decimal(recipe.output_quantity as u64);
        concat3(recipe.name.as_str(), " ×", count.as_str())
    } else {
        recipe.name.clone()
    }
}

/// The group and the time of a batch.
pub open spec fn meta_text(category: Seq<char>, millis: u32, quantity: u16) -> Seq<char> {
    let one = category + " • "@ + digits(nearest_seconds(millis as nat)) + "s"@;
    if quantity > 1 {
        one + " × "@ + digits(quantity as nat)
    } else {
        one
    }
}

/// Writes the group and the time of a batch.
pub fn recipe_meta(category: &str, millis: u32, quantity: u16) -> (r: String)
    ensures
        r@ == meta_text(category@, millis, quantity),
{
    let seconds = decimal(whole_seconds(millis as u64));
    let mut r = category.to_owned();
    r.append(" • ");
    r.append(seconds.as_str());
    r.append("s");
    if quantity > 1 {
        let count = decimal(quantity as u64);
        r.append(" × ");
        r.append(count.as_str());
    }
    r
}

/// The line under the materials that tells how long a batch takes.
pub open spec fn time_text(millis: u32, quantity: u16) -> Seq<char> {
    let total = digits(nearest_seconds((millis * quantity) as nat));
    if quantity > 1 {
        "Time: "@ + digits(nearest_seconds(millis as nat)) + "s each · "@ + total + "s total"@
    } else {
        "Time: "@ + total + "s"@
    }
}

/// Writes how long a batch takes.
pub fn time_line(millis: u32, quantity: u16) -> (r: String)
    ensures
        r@ == time_text(millis, quantity),
{
    proof {
        assert(0 <= millis * quantity <= 0xffff_ffff * 0xffff) by (nonlinear_arith)
            requires
                0 <= millis <= 0xffff_ffff,
                0 <= quantity <= 0xffff,
        ;
    }
    let product: u64 = (millis as u64) * (quantity as u64);
    let total = decimal(whole_seconds(product));
    if quantity > 1 {
        let each = decimal(whole_seconds(millis as u64));
        concat5("Time: ", each.as_str(), "s each · ", total.as_str(), "s total")
    } else {
        concat3("Time: ", total.as_str(), "s")
    }
}

/// The piece behind the meta line that names the station requirement.
pub open spec fn station_chunk_text(station: RecipeStation, station_met: bool) -> Option<
    Seq<char>,
> {
    let label = if station_met {
        met_label(station)
    } else {
        unmet_label(station)
    };
    match label {
        Some(label) => Some("  •  "@ + label),
        None => None,
    }
}

/// Writes the piece that names the station requirement, if there is one.
pub fn station_chunk(station: RecipeStation, station_met: bool) -> (r: Option<String>)
    ensures
        opt_text(r) == station_chunk_text(station, station_met),
{
    let label = if station_met {
        station_met_label(station)
    } else {
        station_requirement(station)
    };
    match label {
        Some(label) => Some(concat2("  •  ", label.as_str())),
        None => None,
    }
}

/// One material line of the card.
pub struct IngredientLine {
    pub name: String,
    pub count: String,
    pub short: bool,
}

/// The line of one material for a batch.
pub open spec fn is_line_of(
    line: IngredientLine,
    items: Seq<ItemDefinition>,
    inventory: Option<&PlayerInventoryState>,
    input: CraftingInput,
    quantity: u16,
) -> bool {
    let status = status_of(inventory, input, quantity);
    &&& line.name@ == name_of(items, input.item_id@)
    &&& line.count@ == digits(status.have as nat) + " / "@ + digits(status.needed as nat)
    &&& line.short == (status.have < status.needed)
}

/// Writes the line of one material.
pub fn ingredient_line(
    items: &Vec<ItemDefinition>,
    inventory: Option<&PlayerInventoryState>,
    input: &CraftingInput,
    quantity: u16,
) -> (r: IngredientLine)
    ensures
        is_line_of(r, items@, inventory, *input, quantity),
{
    let status = ingredient_status(inventory, input, quantity);
    let have = decimal(status.have as u64);
    let needed = decimal(status.needed as u64);
    IngredientLine {
        name: display_name(items, input.item_id.as_str()),
        count: concat3(have.as_str(), " / ", needed.as_str()),
        short: status.short(),
    }
}

/// The quantity that the card counts with: what was typed, one where nothing
/// valid was, and never more than the cap.
pub open spec fn counted(typed: Option<u16>) -> int {
    match typed {
        Some(n) => if n > MAX_CRAFT_BATCH_SIZE {
            MAX_CRAFT_BATCH_SIZE as int
        } else {
            n as int
        },
        None => 1,
    }
}

/// The quantity that the card counts with.
pub fn display_quantity(typed: Option<u16>) -> (r: u16)
    ensures
        r == counted(typed),
        1 <= r || typed == Some(0u16),
{
    match typed {
        Some(n) => if n > MAX_CRAFT_BATCH_SIZE {
            MAX_CRAFT_BATCH_SIZE
        } else {
            n
        },
        None => 1,
    }
}

/// What happened to the stepper and the buttons in a frame.
pub struct ControlEvents {
    pub minus: bool,
    /// What the text field holds after an edit.
    pub edited: Option<String>,
    pub plus: bool,
    pub max: bool,
    pub craft: bool,
}

/// The field after the minus button: one less, down to one.
pub open spec fn after_minus(text: Seq<char>, quantity: u16, pressed: bool) -> Seq<char> {
    if pressed && quantity > 1 {
        digits((quantity - 1) as nat)
    } else {
        text
    }
}

/// The field after an edit: whatever is no digit is taken out.
pub open spec fn after_edit(text: Seq<char>, edited: Option<Seq<char>>) -> Seq<char> {
    match edited {
        Some(typed) => only_digits(typed),
        None => text,
    }
}

/// The field after the plus button: one more, while that is still affordable.
pub open spec fn after_plus(text: Seq<char>, max_batch: u16, pressed: bool) -> Seq<char> {
    match quantity_of(text) {
        Some(n) => if pressed && n < max_batch && n < MAX_CRAFT_BATCH_SIZE {
            digits((n + 1) as nat)
        } else {
            text
        },
        None => text,
    }
}

/// The field after the max button: the largest affordable batch, if there is
/// one.
pub open spec fn after_max(text: Seq<char>, max_batch: u16, pressed: bool) -> Seq<char> {
    if pressed && max_batch > 0 {
        digits(max_batch as nat)
    } else {
        text
    }
}

/// Why a recipe cannot be crafted: the full queue before the station, the
/// station before the materials, the materials before the typed quantity.
pub open spec fn block_reason(
    recipe: RecipeDefinition,
    craftable: bool,
    station_met: bool,
    queue_full: bool,
    max_batch: u16,
    typed: Option<u16>,
) -> Option<Seq<char>> {
    if queue_full {
        Some("The crafting queue is full."@)
    } else if !station_met {
        match unmet_label(recipe.station) {
            Some(label) => Some(label + " to craft "@ + recipe.name@ + "."@),
            None => None,
        }
    } else if !craftable {
        Some("You don't have the materials to craft "@ + recipe.name@ + "."@)
    } else {
        quantity_reason(recipe, max_batch, typed)
    }
}

/// Why a typed quantity cannot be crafted.
pub open spec fn quantity_reason(
    recipe: RecipeDefinition,
    max_batch: u16,
    typed: Option<u16>,
) -> Option<Seq<char>> {
    match typed {
        Some(n) => if n > max_batch {
            Some(
                "You can only craft "@ + digits(max_batch as nat) + " of "@ + recipe.name@
                    + " with what you've got."@,
            )
        } else if n > MAX_CRAFT_BATCH_SIZE {
            Some("Batch is capped at "@ + digits(MAX_CRAFT_BATCH_SIZE as nat) + " per craft."@)
        } else {
            None
        },
        None => Some(
            "Enter a quantity between 1 and "@ + digits(max_batch as nat)
                + " (max you can craft right now)."@,
        ),
    }
}

/// Writes why a typed quantity cannot be crafted.
pub fn quantity_block(recipe: &RecipeDefinition, max_batch: u16, typed: Option<u16>) -> (r: Option<
    String,
>)
    ensures
        opt_text(r) == quantity_reason(*recipe, max_batch, typed),
        r is None <==> typed is Some && typed->0 <= max_batch && typed->0 <= MAX_CRAFT_BATCH_SIZE,
{
    let most = decimal(max_batch as u64);
    match typed {
        Some(n) => if n > max_batch {
            Some(
                concat5(
                    "You can only craft ",
                    most.as_str(),
                    " of ",
                    recipe.name.as_str(),
                    " with what you've got.",
                ),
            )
        } else if n > MAX_CRAFT_BATCH_SIZE {
            let cap = decimal(MAX_CRAFT_BATCH_SIZE as u64);
            Some(concat3("Batch is capped at ", cap.as_str(), " per craft."))
        } else {
            None
        },
        None => Some(
            concat3(
                "Enter a quantity between 1 and ",
                most.as_str(),
                " (max you can craft right now).",
            ),
        ),
    }
}

/// Writes why a recipe cannot be crafted.
pub fn craft_block(
    recipe: &RecipeDefinition,
    craftable: bool,
    station_met: bool,
    queue_full: bool,
    max_batch: u16,
    typed: Option<u16>,
) -> (r: Option<String>)
    ensures
        opt_text(r) == block_reason(
            *recipe,
            craftable,
            station_met,
            queue_full,
            max_batch,
            typed,
        ),
        craftable && station_met && !queue_full ==> (r is None <==> typed is Some && typed->0
            <= max_batch && typed->0 <= MAX_CRAFT_BATCH_SIZE),
        queue_full ==> r is Some,
        !craftable && (station_met || recipe.station != RecipeStation::Hand) ==> r is Some,
        !station_met && recipe.station != RecipeStation::Hand ==> r is Some,
{
    if queue_full {
        Some("The crafting queue is full.".to_owned())
    } else if !station_met {
        match station_requirement(recipe.station) {
            Some(label) => {
                let mut text = concat2(label.as_str(), " to craft ");
                text.append(recipe.name.as_str());
                text.append(".");
                Some(text)
            },
            None => None,
        }
    } else if !craftable {
        Some(concat3("You don't have the materials to craft ", recipe.name.as_str(), "."))
    } else {
        quantity_block(recipe, max_batch, typed)
    }
}

/// What the craft button reads.
pub open spec fn button_text(
    craftable: bool,
    station_met: bool,
    queue_full: bool,
    blocked: bool,
    quantity: u16,
) -> (Seq<char>, ButtonKind) {
    if queue_full {
        ("Queue full"@, ButtonKind::Secondary)
    } else if !station_met {
        ("No bench"@, ButtonKind::Secondary)
    } else if !craftable {
        ("Missing materials"@, ButtonKind::Secondary)
    } else if blocked {
        ("Craft"@, ButtonKind::Secondary)
    } else if quantity > 1 {
        ("Craft ×"@ + digits(quantity as nat), ButtonKind::Primary)
    } else {
        ("Craft"@, ButtonKind::Primary)
    }
}

/// Writes what the craft button reads.
pub fn craft_button(
    craftable: bool,
    station_met: bool,
    queue_full: bool,
    blocked: bool,
    quantity: u16,
) -> (r: (String, ButtonKind))
    ensures
        (r.0@, r.1) == button_text(craftable, station_met, queue_full, blocked, quantity),
{
    if queue_full {
        ("Queue full".to_owned(), ButtonKind::Secondary)
    } else if !station_met {
        ("No bench".to_owned(), ButtonKind::Secondary)
    } else if !craftable {
        ("Missing materials".to_owned(), ButtonKind::Secondary)
    } else if blocked {
        ("Craft".to_owned(), ButtonKind::Secondary)
    } else if quantity > 1 {
        let count = decimal(quantity as u64);
        (concat2("Craft ×", count.as_str()), ButtonKind::Primary)
    } else {
        ("Craft".to_owned(), ButtonKind::Primary)
    }
}

/// What the max button tells on hover.
pub open spec fn max_hint_text(recipe: RecipeDefinition, max_batch: u16) -> Seq<char> {
    if max_batch == 0 {
        "You don't have the materials to craft "@ + recipe.name@ + "."@
    } else {
        "Set the batch to "@ + digits(max_batch as nat) + ", the most you can make"@
    }
}

/// Writes what the max button tells on hover.
pub fn max_hint(recipe: &RecipeDefinition, max_batch: u16) -> (r: String)
    ensures
        r@ == max_hint_text(*recipe, max_batch),
{
    if max_batch == 0 {
        concat3("You don't have the materials to craft ", recipe.name.as_str(), ".")
    } else {
        let most = decimal(max_batch as u64);
        concat3("Set the batch to ", most.as_str(), ", the most you can make")
    }
}

/// What the row of controls shows and does in a frame.
pub struct ControlsOutcome {
    pub disabled: Option<String>,
    pub label: String,
    pub kind: ButtonKind,
    pub max_hint: String,
    /// The quantity of the batch to put into the queue.
    pub enqueue: Option<u16>,
}

/// The text of the field that the plus, max and craft buttons of a frame see.
pub open spec fn edited_text(text: Seq<char>, quantity: u16, events: ControlEvents) -> Seq<char> {
    after_edit(after_minus(text, quantity, events.minus), opt_text(events.edited))
}

/// The text of the field at the end of a frame.
pub open spec fn settled_text(
    text: Seq<char>,
    quantity: u16,
    max_batch: u16,
    events: ControlEvents,
) -> Seq<char> {
    after_max(
        after_plus(edited_text(text, quantity, events), max_batch, events.plus),
        max_batch,
        events.max,
    )
}

/// The batch that a press on the craft button asks for: the typed quantity
/// where nothing stands in its way.
pub open spec fn requested(reason: Option<Seq<char>>, typed: Option<u16>, pressed: bool) -> Option<
    u16,
> {
    if pressed && reason is None {
        typed
    } else {
        None
    }
}

fn controls_row(
    book: &mut QuantityBook,
    entry: &RecipeListEntry,
    queue_full: bool,
    max_batch: u16,
    display_qty: u16,
    text: String,
    events: &ControlEvents,
) -> (r: ControlsOutcome)
    requires
        old(book)@.dom().contains(entry.recipe.id@),
        old(book)@[entry.recipe.id@] == text@,
        forall|i: int| 0 <= i < text@.len() ==> is_digit(#[trigger] text@[i]),
    ensures
        ({
            let typed = quantity_of(edited_text(text@, display_qty, *events));
            let reason = block_reason(
                *entry.recipe,
                entry.craftable,
                entry.station_met,
                queue_full,
                max_batch,
                typed,
            );
            &&& opt_text(r.disabled) == reason
            &&& (r.label@, r.kind) == button_text(
                entry.craftable,
                entry.station_met,
                queue_full,
                reason is Some,
                display_qty,
            )
            &&& r.max_hint@ == max_hint_text(*entry.recipe, max_batch)
            &&& r.enqueue == requested(reason, typed, events.craft)
            &&& typed is Some && typed->0 <= max_batch && typed->0 <= MAX_CRAFT_BATCH_SIZE
                && entry.craftable && entry.station_met && !queue_full && events.craft
                ==> r.enqueue == typed
            &&& r.enqueue is Some ==> events.craft && r.disabled is None
            &&& r.kind == ButtonKind::Primary <==> r.disabled is None && entry.craftable
                && entry.station_met && !queue_full
        }),
        final(book)@ == old(book)@.insert(
            entry.recipe.id@,
            settled_text(text@, display_qty, max_batch, *events),
        ),
        final(book).fields.len() == old(book).fields.len(),
{
    let mut current: String = text;
    if events.minus && display_qty > 1 {
        proof {
            number_of_digits((display_qty - 1) as nat);
        }
        current = decimal((display_qty - 1) as u64);
    }
    if let Some(typed) = &events.edited {
        current = keep_digits(typed.as_str());
    }
    let typed_qty = parse_quantity(current.as_str());
    let mut shown: String = current;
    if let Some(n) = typed_qty {
        if events.plus && n < max_batch && n < MAX_CRAFT_BATCH_SIZE {
            shown = decimal((n + 1) as u64);
        }
    }
    if events.max && max_batch > 0 {
        shown = decimal(max_batch as u64);
    }
    let disabled = craft_block(
        entry.recipe,
        entry.craftable,
        entry.station_met,
        queue_full,
        max_batch,
        typed_qty,
    );
    let (label, kind) = craft_button(
        entry.craftable,
        entry.station_met,
        queue_full,
        disabled.is_some(),
        display_qty,
    );
    let enqueue = if events.craft && disabled.is_none() {
        typed_qty
    } else {
        None
    };
    book.set(entry.recipe.id.as_str(), shown);
    ControlsOutcome {
        disabled,
        label,
        kind,
        max_hint: max_hint(entry.recipe, max_batch),
        enqueue,
    }
}

/// Everything that the detail card shows and does in a frame.
pub struct DetailCard {
    pub title: String,
    pub meta: String,
    pub station: Option<String>,
    pub description: String,
    /// Empty where the recipe needs nothing.
    pub ingredients: Vec<IngredientLine>,
    pub time: String,
    pub controls: ControlsOutcome,
}

/// Runs the detail card of the selected recipe for one frame: opens its
/// quantity field, writes the texts for the quantity typed so far, and handles
/// the controls.
pub fn recipe_details(
    items: &Vec<ItemDefinition>,
    category: &str,
    entry: &RecipeListEntry,
    inventory: Option<&PlayerInventoryState>,
    queue_full: bool,
    book: &mut QuantityBook,
    events: &ControlEvents,
) -> (r: DetailCard)
    ensures
        ({
            let text = only_digits(shown_text(old(book)@, entry.recipe.id@));
            let quantity = counted(quantity_of(text)) as u16;
            let max_batch = batch_ceiling(inventory, entry.recipe.inputs@) as u16;
            let typed = quantity_of(edited_text(text, quantity, *events));
            let reason = block_reason(
                *entry.recipe,
                entry.craftable,
                entry.station_met,
                queue_full,
                max_batch,
                typed,
            );
            &&& r.title@ == title_text(*entry.recipe)
            &&& r.meta@ == meta_text(category@, entry.recipe.craft_millis, quantity)
            &&& opt_text(r.station) == station_chunk_text(
                entry.recipe.station,
                entry.station_met,
            )
            &&& r.description@ == entry.recipe.description@
            &&& r.ingredients@.len() == entry.recipe.inputs@.len()
            &&& forall|i: int|
                0 <= i < r.ingredients@.len() ==> is_line_of(
                    #[trigger] r.ingredients@[i],
                    items@,
                    inventory,
                    entry.recipe.inputs@[i],
                    quantity,
                )
            &&& r.time@ == time_text(entry.recipe.craft_millis, quantity)
            &&& opt_text(r.controls.disabled) == reason
            &&& (r.controls.label@, r.controls.kind) == button_text(
                entry.craftable,
                entry.station_met,
                queue_full,
                reason is Some,
                quantity,
            )
            &&& r.controls.max_hint@ == max_hint_text(*entry.recipe, max_batch)
            &&& r.controls.enqueue == requested(reason, typed, events.craft)
            &&& final(book)@ == old(book)@.insert(
                entry.recipe.id@,
                settled_text(text, quantity, max_batch, *events),
            )
            &&& typed is Some && typed->0 <= max_batch && typed->0 <= MAX_CRAFT_BATCH_SIZE
                && entry.craftable && entry.station_met && !queue_full && events.craft
                ==> r.controls.enqueue == typed
        }),
        final(book).fields.len() == old(book).fields.len() + if old(book)@.dom().contains(
            entry.recipe.id@,
        ) {
            0int
        } else {
            1
        },
{
    let recipe = entry.recipe;
    let max_batch = max_craftable_batch(inventory, recipe);
    let text = book.open_field(recipe.id.as_str());
    let ghost opened = book@;
    let ghost shown = text@;
    let quantity = display_quantity(parse_quantity(text.as_str()));
    let mut ingredients: Vec<IngredientLine> = Vec::new();
    let mut i: usize = 0;
    while i < recipe.inputs.len()
        invariant
            i <= recipe.inputs.len(),
            ingredients.len() == i,
            forall|k: int|
                0 <= k < i ==> is_line_of(
                    #[trigger] ingredients@[k],
                    items@,
                    inventory,
                    recipe.inputs@[k],
                    quantity,
                ),
        decreases recipe.inputs.len() - i,
    {
        let line = ingredient_line(items, inventory, &recipe.inputs[i], quantity);
        ingredients.push(line);
        i = i + 1;
    }
    let controls = controls_row(book, entry, queue_full, max_batch, quantity, text, events);
    proof {
        assert(book@ =~= old(book)@.insert(
            entry.recipe.id@,
            settled_text(shown, quantity, max_batch, *events),
        ));
    }
    DetailCard {
        title: recipe_title(recipe),
        meta: recipe_meta(category, recipe.craft_millis, quantity),
        station: station_chunk(recipe.station, entry.station_met),
        description: recipe.description.clone(),
        ingredients,
        time: time_line(recipe.craft_millis, quantity),
        controls,
    }
}

/// Only what is affordable reaches the queue: a batch that a press on the craft
/// button asks for lies between one and the largest affordable batch, its
/// station is met and the queue has room. Recipes made by hand always have
/// their station met.
pub proof fn only_affordable_batches_are_requested(
    recipe: RecipeDefinition,
    craftable: bool,
    station_met: bool,
    queue_full: bool,
    max_batch: u16,
    text: Seq<char>,
    pressed: bool,
)
    requires
        recipe.station == RecipeStation::Hand ==> station_met,
    ensures
        ({
            let typed = quantity_of(text);
            let reason = block_reason(
                recipe,
                craftable,
                station_met,
                queue_full,
                max_batch,
                typed,
            );
            requested(reason, typed, pressed) matches Some(n) ==> {
                &&& 1 <= n <= max_batch
                &&& n <= MAX_CRAFT_BATCH_SIZE
                &&& craftable
                &&& station_met
                &&& !queue_full
            }
        }),
{
}

/// The stepper stays within bounds: the plus button never passes the largest
/// affordable batch, and the max button sets exactly that.
pub proof fn stepper_stays_affordable(text: Seq<char>, max_batch: u16)
    requires
        max_batch <= MAX_CRAFT_BATCH_SIZE,
    ensures
        after_plus(text, max_batch, true) != text ==> (quantity_of(
            after_plus(text, max_batch, true),
        ) matches Some(n) && n <= max_batch),
        max_batch > 0 ==> quantity_of(after_max(text, max_batch, true)) == Some(max_batch),
{
    if let Some(n) = quantity_of(text) {
        if n < max_batch {
            written_quantity_is_read_back((n + 1) as u16);
        }
    }
    if max_batch > 0 {
        written_quantity_is_read_back(max_batch);
    }
}

/// Minus undoes plus: after a press on plus that changed the field, a press on
/// minus brings the quantity back.
pub proof fn minus_undoes_plus(text: Seq<char>, max_batch: u16)
    requires
        max_batch <= MAX_CRAFT_BATCH_SIZE,
        after_plus(text, max_batch, true) != text,
    ensures
        ({
            let more = after_plus(text, max_batch, true);
            let counted_more = counted(quantity_of(more)) as u16;
            quantity_of(after_minus(more, counted_more, true)) == quantity_of(text)
        }),
{
    let n = quantity_of(text)->0;
    written_quantity_is_read_back((n + 1) as u16);
    written_quantity_is_read_back(n);
}

/// Every affordable batch can be asked for: with room in the queue, the station in
/// reach and the materials at hand nothing stands in the way of a quantity up to the
/// largest affordable one and the cap, and a press on the button asks for just that.
pub proof fn every_affordable_batch_is_requested(
    recipe: RecipeDefinition,
    max_batch: u16,
    n: u16,
)
    requires
        1 <= n <= max_batch,
        n <= MAX_CRAFT_BATCH_SIZE,
    ensures
        block_reason(recipe, true, true, false, max_batch, Some(n)) is None,
        requested(
            block_reason(recipe, true, true, false, max_batch, Some(n)),
            Some(n),
            true,
        ) == Some(n),
        quantity_of(digits(n as nat)) == Some(n),
{
    written_quantity_is_read_back(n);
}

/// Without a press nothing is asked for.
pub proof fn nothing_is_requested_without_a_press(reason: Option<Seq<char>>, typed: Option<u16>)
    ensures
        requested(reason, typed, false) is None,
        reason is Some ==> requested(reason, typed, true) is None,
{
}

/// Each obstacle is told in the words of its own, and a weightier one hides the others:
/// the same obstacle reads the same whatever else is in the way.
pub proof fn weightiest_obstacle_is_told(
    recipe: RecipeDefinition,
    craftable: bool,
    station_met: bool,
    max_batch: u16,
    typed: Option<u16>,
    other_max: u16,
    other_typed: Option<u16>,
)
    requires
        recipe.station != RecipeStation::Hand,
    ensures
        block_reason(recipe, craftable, station_met, true, max_batch, typed) == Some(
            "The crafting queue is full."@,
        ),
        block_reason(recipe, craftable, false, false, max_batch, typed) == block_reason(
            recipe,
            true,
            false,
            false,
            other_max,
            other_typed,
        ),
        block_reason(recipe, craftable, false, false, max_batch, typed) is Some,
        block_reason(recipe, false, true, false, max_batch, typed) == block_reason(
            recipe,
            false,
            true,
            false,
            other_max,
            other_typed,
        ),
        block_reason(recipe, false, true, false, max_batch, typed) is Some,
        block_reason(recipe, true, true, false, max_batch, None) is Some,
        typed is Some && typed->0 > max_batch ==> block_reason(
            recipe,
            true,
            true,
            false,
            max_batch,
            typed,
        ) is Some,
{
}

/// The material lines of a batch are short exactly where the batch cannot be made: for
/// a batch whose costs fit into 16 bits, all lines are covered if and only if the
/// player affords it.
pub proof fn batch_is_affordable_iff_no_line_is_short(
    inventory: PlayerInventoryState,
    inputs: Seq<CraftingInput>,
    n: u16,
)
    requires
        n >= 1,
        forall|i: int| 0 <= i < inputs.len() ==> n * (#[trigger] inputs[i]).quantity <= 65535,
    ensures
        affords(inventory, inputs, n as int) <==> forall|i: int|
            0 <= i < inputs.len() ==> {
                let status = status_of(Some(&inventory), #[trigger] inputs[i], n);
                status.have >= status.needed
            },
{
    assert forall|i: int| 0 <= i < inputs.len() implies (affords_input(
        inventory,
        #[trigger] inputs[i],
        n as int,
    ) <==> status_of(Some(&inventory), inputs[i], n).have >= status_of(
        Some(&inventory),
        inputs[i],
        n,
    ).needed) by {
        let quantity = inputs[i].quantity as int;
        let times = n as int;
        assert(quantity * times == times * quantity && 0 <= quantity * times) by (nonlinear_arith)
            requires
                0 <= quantity,
                0 <= times,
        ;
        assert(n * inputs[i].quantity == times * quantity);
        assert(batch_cost(inputs[i].quantity, n) == quantity * times);
    }
    if affords(inventory, inputs, n as int) {
        assert forall|i: int| 0 <= i < inputs.len() implies {
            let status = status_of(Some(&inventory), #[trigger] inputs[i], n);
            status.have >= status.needed
        } by {
            assert(affords_input(inventory, inputs[i], n as int));
        }
    }
}

/// What a line tells: one batch costs what the recipe says, each further one as much
/// again, up to what 16 bits can hold; what the player carries does not hang on the
/// batch, and is nothing while the inventory is not known.
pub proof fn cost_grows_with_the_batch(
    inventory: Option<&PlayerInventoryState>,
    input: CraftingInput,
    n: u16,
)
    requires
        1 <= n < u16::MAX,
        input.quantity * (n + 1) <= 65535,
    ensures
        status_of(inventory, input, 1).needed == input.quantity,
        status_of(inventory, input, (n + 1) as u16).needed == status_of(inventory, input, n).needed
            + input.quantity,
        status_of(inventory, input, (n + 1) as u16).have == status_of(inventory, input, n).have,
        status_of(None, input, n).have == 0,
        inventory matches Some(carried) ==> status_of(inventory, input, n).have == if carried_amount(
            *carried,
            input.item_id@,
        ) > 65535 {
            65535
        } else {
            carried_amount(*carried, input.item_id@) as int
        },
{
    let quantity = input.quantity as int;
    let times = n as int;
    assert(quantity * (times + 1) == quantity * times + quantity && 0 <= quantity * times)
        by (nonlinear_arith)
        requires
            0 <= quantity,
            0 <= times,
    ;
    assert(quantity * 1 == quantity) by (nonlinear_arith);
    assert(input.quantity * (n + 1) == quantity * (times + 1));
    let one = 1u16 as int;
    assert(quantity * one == quantity);
}

/// The rounded seconds lie at most half a second off, and of two that do the even one
/// is taken.
pub proof fn seconds_are_the_nearest(millis: nat)
    ensures
        ({
            let off = 1000 * nearest_seconds(millis) - millis;
            &&& -500 <= off <= 500
            &&& off == 500 || off == -500 ==> nearest_seconds(millis) % 2 == 0
        }),
{
}

/// Each button moves the quantity as it says: plus by one up, minus by one down, max to
/// the largest batch; without a press nothing moves, and an edit leaves the digits.
pub proof fn stepper_moves_by_one(text: Seq<char>, max_batch: u16, n: u16)
    requires
        quantity_of(text) == Some(n),
        max_batch <= MAX_CRAFT_BATCH_SIZE,
    ensures
        n < max_batch ==> quantity_of(after_plus(text, max_batch, true)) == Some((n + 1) as u16),
        n >= max_batch ==> after_plus(text, max_batch, true) == text,
        1 < n <= MAX_CRAFT_BATCH_SIZE ==> quantity_of(
            after_minus(text, counted(Some(n)) as u16, true),
        ) == Some((n - 1) as u16),
        n == 1 ==> after_minus(text, counted(Some(n)) as u16, true) == text,
        max_batch > 0 ==> quantity_of(after_max(text, max_batch, true)) == Some(max_batch),
        max_batch == 0 ==> after_max(text, max_batch, true) == text,
        after_plus(text, max_batch, false) == text,
        after_minus(text, n, false) == text,
        after_max(text, max_batch, false) == text,
        after_edit(text, None) == text,
        forall|typed: Seq<char>|
            #![trigger after_edit(text, Some(typed))]
            (forall|i: int| 0 <= i < typed.len() ==> is_digit(#[trigger] typed[i])) ==> after_edit(
                text,
                Some(typed),
            ) == typed,
{
    if n < max_batch {
        written_quantity_is_read_back((n + 1) as u16);
    }
    if 1 < n <= MAX_CRAFT_BATCH_SIZE {
        written_quantity_is_read_back((n - 1) as u16);
    }
    if max_batch > 0 {
        written_quantity_is_read_back(max_batch);
    }
    assert forall|typed: Seq<char>|
        (forall|i: int| 0 <= i < typed.len() ==> is_digit(#[trigger] typed[i])) implies (
    #[trigger] after_edit(text, Some(typed))) == typed by {
        only_digits_keeps_digits(typed);
    }
}

/// The button reads as ready exactly where it would craft, and tells the batch where it
/// is more than one.
pub proof fn button_is_ready_iff_it_crafts(
    recipe: RecipeDefinition,
    craftable: bool,
    station_met: bool,
    queue_full: bool,
    max_batch: u16,
    n: u16,
)
    requires
        recipe.station == RecipeStation::Hand ==> station_met,
    ensures
        ({
            let reason = block_reason(
                recipe,
                craftable,
                station_met,
                queue_full,
                max_batch,
                Some(n),
            );
            let button = button_text(craftable, station_met, queue_full, reason is Some, n);
            &&& button.1 == ButtonKind::Primary <==> requested(reason, Some(n), true) == Some(n)
            &&& button.1 != ButtonKind::Danger
            &&& button.1 == ButtonKind::Primary && n > 1 ==> button.0 == "Craft ×"@ + digits(
                n as nat,
            )
            &&& button.1 == ButtonKind::Primary && n <= 1 ==> button.0 == "Craft"@
            &&& queue_full ==> button.0 == "Queue full"@
            &&& !queue_full && !station_met ==> button.0 == "No bench"@
            &&& !queue_full && station_met && !craftable ==> button.0 == "Missing materials"@
        }),
{
}

/// The texts of the card name the recipe and its numbers: the title is the name, with
/// the output count behind it where there is more than one; the time line tells the
/// whole batch; the station is named as met or as missing.
pub proof fn card_names_its_numbers(recipe: RecipeDefinition, category: Seq<char>, n: u16)
    ensures
        recipe.output_quantity <= 1 ==> title_text(recipe) == recipe.name@,
        recipe.output_quantity > 1 ==> title_text(recipe) == recipe.name@ + " ×"@ + digits(
            recipe.output_quantity as nat,
        ),
        meta_text(category, recipe.craft_millis, 1) == category + " • "@ + digits(
            nearest_seconds(recipe.craft_millis as nat),
        ) + "s"@,
        n > 1 ==> meta_text(category, recipe.craft_millis, n) == meta_text(
            category,
            recipe.craft_millis,
            1,
        ) + " × "@ + digits(n as nat),
        time_text(recipe.craft_millis, 1) == "Time: "@ + digits(
            nearest_seconds(recipe.craft_millis as nat),
        ) + "s"@,
        n > 1 ==> time_text(recipe.craft_millis, n) == time_text(recipe.craft_millis, 1)
            + " each · "@ + digits(nearest_seconds((recipe.craft_millis * n) as nat)) + "s total"@,
        station_chunk_text(RecipeStation::Hand, true) is None,
        recipe.station matches RecipeStation::Workbench { min_tier } ==> {
            let tier = "Workbench Tier "@ + digits(min_tier as nat);
            &&& station_chunk_text(recipe.station, true) == Some("  •  "@ + tier)
            &&& station_chunk_text(recipe.station, false) == Some("  •  Requires "@ + tier)
        },
{
    assert((recipe.craft_millis * 1) as nat == recipe.craft_millis as nat);
    reveal_strlit("s");
    reveal_strlit(" each · ");
    reveal_strlit("s each · ");
    assert("s"@ + " each · "@ =~= "s each · "@);
    let each = digits(nearest_seconds(recipe.craft_millis as nat));
    assert("Time: "@ + each + "s"@ + " each · "@ =~= "Time: "@ + each + "s each · "@);
    if let RecipeStation::Workbench { min_tier } = recipe.station {
        let tier = digits(min_tier as nat);
        reveal_strlit("Requires Workbench Tier ");
        reveal_strlit("Workbench Tier ");
        reveal_strlit("  •  ");
        reveal_strlit("  •  Requires ");
        assert("  •  "@ + ("Requires Workbench Tier "@ + tier) =~= "  •  Requires "@ + (
        "Workbench Tier "@ + tier));
    }
}

/// A material line names its material and tells what is there out of what is needed; it
/// is short exactly where the first is less.
pub proof fn lines_tell_what_is_there_of_what_is_needed(
    line: IngredientLine,
    items: Seq<ItemDefinition>,
    inventory: Option<&PlayerInventoryState>,
    input: CraftingInput,
    quantity: u16,
)
    requires
        is_line_of(line, items, inventory, input, quantity),
    ensures
        ({
            let status = status_of(inventory, input, quantity);
            &&& line.name@ == name_of(items, input.item_id@)
            &&& line.count@ == digits(status.have as nat) + " / "@ + digits(status.needed as nat)
            &&& line.short <==> status.have < status.needed
        }),
{
}

/// What the max button tells: the batch it sets, or that there are no materials.
pub proof fn max_hint_tells_the_batch(recipe: RecipeDefinition, max_batch: u16)
    ensures
        max_batch > 0 ==> max_hint_text(recipe, max_batch) == "Set the batch to "@ + digits(
            max_batch as nat,
        ) + ", the most you can make"@,
        max_hint_text(recipe, 0) == "You don't have the materials to craft "@ + recipe.name@
            + "."@,
{
}

/// The card counts with the typed quantity up to the cap, and with one where nothing
/// valid was typed.
pub proof fn card_counts_with_the_typed_quantity(typed: Option<u16>)
    ensures
        typed is None ==> counted(typed) == 1,
        typed is Some && typed->0 <= MAX_CRAFT_BATCH_SIZE ==> counted(typed) == typed->0,
        typed is Some && typed->0 > MAX_CRAFT_BATCH_SIZE ==> counted(typed)
            == MAX_CRAFT_BATCH_SIZE,
{
}

/// The buttons of a frame act one after the other: minus, then an edit, which overrules
/// it, then plus on what that left, and max, which overrules them all.
pub proof fn buttons_act_in_turn(
    text: Seq<char>,
    quantity: u16,
    max_batch: u16,
    events: ControlEvents,
)
    ensures
        events.edited matches Some(typed) ==> edited_text(text, quantity, events) == only_digits(
            typed@,
        ),
        events.edited is None && !events.minus ==> edited_text(text, quantity, events) == text,
        events.edited is None && events.minus && quantity > 1 ==> edited_text(
            text,
            quantity,
            events,
        ) == digits((quantity - 1) as nat),
        events.max && max_batch > 0 ==> settled_text(text, quantity, max_batch, events) == digits(
            max_batch as nat,
        ),
        !events.max && !events.plus ==> settled_text(text, quantity, max_batch, events)
            == edited_text(text, quantity, events),
        !events.max ==> settled_text(text, quantity, max_batch, events) == after_plus(
            edited_text(text, quantity, events),
            max_batch,
            events.plus,
        ),
{
}

/// A cost past what 16 bits can hold is told as the most that they can, and so is what
/// is carried.
pub proof fn numbers_of_a_line_are_capped(
    carried: PlayerInventoryState,
    input: CraftingInput,
    n: u16,
)
    requires
        n >= 1,
        input.quantity * n > 65535,
    ensures
        status_of(Some(&carried), input, n).needed == 65535,
        carried_amount(carried, input.item_id@) > 65535 ==> status_of(
            Some(&carried),
            input,
            n,
        ).have == 65535,
        status_of(Some(&carried), input, 0) == status_of(Some(&carried), input, 1),
{
}

} // verus!
