//! One slot: what it shows, what its tooltip says, and what pressing it does.
use vstd::prelude::*;
use crate::color::{Rgba, opaque, shade, solid, translucent};
use crate::items::{
    ItemContainerSlot, ItemDefinition, ItemStack, first_row_of_the_id_is_found, item_definition,
    item_of,
};
use crate::text::{concat2, concat3, concat5, decimal, digits, join, joined, texts};

verus! {

/// The edge length of a slot, in pixels.
pub const SLOT_SIZE: u32 = 56;

/// A slot of an opened furnace, or one of the player's that a furnace command
/// names.
#[derive(Clone, Copy, Debug, PartialEq, Eq, Structural)]
pub enum FurnaceSlotRef {
    Fuel,
    Item(usize),
    Player(ItemContainerSlot),
}

/// Any slot that can be on screen.
#[derive(Clone, Copy, Debug, PartialEq, Eq, Structural)]
pub enum UnifiedSlotRef {
    Player(ItemContainerSlot),
    Furnace(FurnaceSlotRef),
    Bag(usize),
}

/// The mouse button that a drag was begun with.
#[derive(Clone, Copy, Debug, PartialEq, Eq, Structural)]
pub enum InventoryDragButton {
    Primary,
    Secondary,
}

/// A stack on its way from one slot to another.
pub struct InventoryDrag {
    pub source: UnifiedSlotRef,
    pub stack: ItemStack,
    pub quantity: u16,
    pub button: InventoryDragButton,
}

/// What the slot surfaces keep between frames.
pub struct InventoryUiState {
    pub drag: Option<InventoryDrag>,
    pub hovered_slot: Option<UnifiedSlotRef>,
    pub pending_quick_transfer: Option<UnifiedSlotRef>,
    /// Whether the panel shows the item grants instead of the bag.
    pub admin_tab: bool,
    /// Whether the panel was up in the last frame.
    pub was_open: bool,
    /// Whether the panel was on the crafting tab in the last frame.
    pub was_crafting: bool,
}

impl InventoryUiState {
    /// Nothing dragged, hovered or pending.
    pub fn new() -> (r: Self)
        ensures
            r.drag is None,
            r.hovered_slot is None,
            r.pending_quick_transfer is None,
            !r.admin_tab,
            !r.was_open,
            !r.was_crafting,
    {
        InventoryUiState {
            drag: None,
            hovered_slot: None,
            pending_quick_transfer: None,
            admin_tab: false,
            was_open: false,
            was_crafting: false,
        }
    }

    /// Lets go of what is dragged.
    pub fn cancel_drag(&mut self)
        ensures
            *final(self) == (InventoryUiState { drag: None, ..*old(self) }),
    {
        self.drag = None;
    }
}

/// Half of a stack, rounded up, and at least one.
pub open spec fn half_up(quantity: u16) -> int {
    let half = (quantity + 1) / 2;
    if half < 1 {
        1
    } else {
        half
    }
}

/// What a drag with the secondary button takes of a stack.
pub fn split_quantity(quantity: u16) -> (r: u16)
    ensures
        r == half_up(quantity),
        quantity > 0 ==> 1 <= r <= quantity,
        quantity > 0 ==> quantity - r <= r <= quantity - r + 1,
{
    let half: u16 = (quantity / 2) + (quantity % 2);
    if half < 1 {
        1
    } else {
        half
    }
}

/// Begins to drag part of a stack.
pub fn begin_drag(
    inventory_ui: &mut InventoryUiState,
    source: UnifiedSlotRef,
    stack: &ItemStack,
    quantity: u16,
    button: InventoryDragButton,
)
    ensures
        *final(inventory_ui) == (InventoryUiState {
            drag: Some(InventoryDrag { source, stack: *stack, quantity, button }),
            ..*old(inventory_ui)
        }),
{
    inventory_ui.drag = Some(InventoryDrag { source, stack: stack.clone(), quantity, button });
}

/// What the pointer does over a slot in a frame.
#[derive(Clone, Copy, Debug, PartialEq, Eq, Structural)]
pub struct SlotPointer {
    pub over_slot: bool,
    pub response_hovered: bool,
    pub primary_pressed: bool,
    pub secondary_pressed: bool,
    pub shift_held: bool,
}

/// How a slot is painted.
#[derive(Clone, Copy, Debug, PartialEq, Eq, Structural)]
pub struct SlotPaint {
    pub hovered: bool,
    pub is_drag_source: bool,
    /// Only the player's own slots flash when they gain items.
    pub may_flash: bool,
    pub tooltip: bool,
}

/// Whether a drag comes from the given slot.
pub open spec fn drags_from(state: InventoryUiState, slot: UnifiedSlotRef) -> bool {
    state.drag matches Some(drag) && drag.source == slot
}

/// The state after a slot was drawn. The pointer over an interactive slot is
/// remembered; a press on a stack while nothing is dragged hands it over at
/// once with shift held (where that is enabled), or begins to drag all of it
/// with the primary and half of it with the secondary button.
pub open spec fn slot_drawn(
    state: InventoryUiState,
    slot: UnifiedSlotRef,
    stack: Option<ItemStack>,
    interactive: bool,
    shift_transfer: bool,
    pointer: SlotPointer,
) -> InventoryUiState {
    if !interactive {
        state
    } else {
        let hovering = if pointer.over_slot {
            InventoryUiState { hovered_slot: Some(slot), ..state }
        } else {
            state
        };
        match stack {
            Some(stack) => if state.drag is Some || !pointer.over_slot {
                hovering
            } else if pointer.primary_pressed && pointer.shift_held && shift_transfer {
                InventoryUiState { pending_quick_transfer: Some(slot), ..hovering }
            } else if pointer.primary_pressed {
                InventoryUiState {
                    drag: Some(
                        InventoryDrag {
                            source: slot,
                            stack,
                            quantity: stack.quantity,
                            button: InventoryDragButton::Primary,
                        },
                    ),
                    ..hovering
                }
            } else if pointer.secondary_pressed {
                InventoryUiState {
                    drag: Some(
                        InventoryDrag {
                            source: slot,
                            stack,
                            quantity: half_up(stack.quantity) as u16,
                            button: InventoryDragButton::Secondary,
                        },
                    ),
                    ..hovering
                }
            } else {
                hovering
            },
            None => hovering,
        }
    }
}

/// Draws one slot: decides how it is painted and what pressing it does.
pub fn draw_slot(
    inventory_ui: &mut InventoryUiState,
    slot: UnifiedSlotRef,
    stack: Option<&ItemStack>,
    interactive: bool,
    shift_transfer_enabled: bool,
    pointer: SlotPointer,
) -> (r: SlotPaint)
    ensures
        *final(inventory_ui) == slot_drawn(
            *old(inventory_ui),
            slot,
            match stack {
                Some(stack) => Some(*stack),
                None => None,
            },
            interactive,
            shift_transfer_enabled,
            pointer,
        ),
        r == (SlotPaint {
            hovered: interactive && (pointer.response_hovered || (old(inventory_ui).drag is Some
                && pointer.over_slot)),
            is_drag_source: interactive && drags_from(*old(inventory_ui), slot),
            may_flash: slot is Player,
            tooltip: interactive && stack is Some && old(inventory_ui).drag is None,
        }),
        r.tooltip || r.is_drag_source || r.hovered ==> interactive,
        r.is_drag_source ==> old(inventory_ui).drag is Some && old(inventory_ui).drag->0.source
            == slot && !r.tooltip,
        interactive && old(inventory_ui).drag is Some && old(inventory_ui).drag->0.source == slot
            ==> r.is_drag_source,
        interactive && pointer.over_slot ==> final(inventory_ui).hovered_slot == Some(slot),
        final(inventory_ui).drag != old(inventory_ui).drag ==> r.tooltip && pointer.over_slot
            && final(inventory_ui).drag is Some && final(inventory_ui).drag->0.source == slot,
{
    let may_flash: bool = match slot {
        UnifiedSlotRef::Player(_) => true,
        _ => false,
    };
    if !interactive {
        return SlotPaint { hovered: false, is_drag_source: false, may_flash, tooltip: false };
    }
    let dragging = inventory_ui.drag.is_some();
    let is_drag_source: bool = match &inventory_ui.drag {
        Some(drag) => drag.source == slot,
        None => false,
    };
    let hovered = pointer.response_hovered || (dragging && pointer.over_slot);
    if pointer.over_slot {
        inventory_ui.hovered_slot = Some(slot);
    }
    let mut tooltip = false;
    if let Some(stack) = stack {
        if !dragging {
            tooltip = true;
            if pointer.over_slot {
                if pointer.primary_pressed && pointer.shift_held && shift_transfer_enabled {
                    inventory_ui.pending_quick_transfer = Some(slot);
                } else if pointer.primary_pressed {
                    begin_drag(
                        inventory_ui,
                        slot,
                        stack,
                        stack.quantity,
                        InventoryDragButton::Primary,
                    );
                } else if pointer.secondary_pressed {
                    begin_drag(
                        inventory_ui,
                        slot,
                        stack,
                        split_quantity(stack.quantity),
                        InventoryDragButton::Secondary,
                    );
                }
            }
        }
    }
    SlotPaint { hovered, is_drag_source, may_flash, tooltip }
}

/// A slot that takes no input changes nothing, and a press never replaces a
/// drag that runs already.
pub proof fn running_drags_are_kept(
    state: InventoryUiState,
    slot: UnifiedSlotRef,
    stack: Option<ItemStack>,
    interactive: bool,
    shift_transfer: bool,
    pointer: SlotPointer,
)
    ensures
        !interactive ==> slot_drawn(state, slot, stack, interactive, shift_transfer, pointer)
            == state,
        state.drag is Some ==> slot_drawn(
            state,
            slot,
            stack,
            interactive,
            shift_transfer,
            pointer,
        ).drag == state.drag,
{
}

/// A wear line.
pub open spec fn durability_text(remaining: u16, max: u16) -> Seq<char> {
    "Durability: "@ + digits(remaining as nat) + "/"@ + digits(max as nat)
}

/// The wear line of a stack, where both the stack and its profile tell one.
pub open spec fn durability_lines(remaining: Option<u16>, max: Option<u16>) -> Seq<Seq<char>> {
    match (remaining, max) {
        (Some(remaining), Some(max)) => seq![durability_text(remaining, max)],
        _ => Seq::empty(),
    }
}

/// The lines about a tool.
pub open spec fn tool_lines(definition: ItemDefinition, stack: ItemStack) -> Seq<Seq<char>> {
    match definition.tool {
        Some(tool) => seq![
            tool.kind_label@ + " · Tier "@ + digits(tool.tier as nat) + " · gathers "@ + digits(
                tool.gather_amount as nat,
            ) + " per hit"@,
        ] + durability_lines(stack.durability, tool.max_durability),
        None => Seq::empty(),
    }
}

/// The lines about something that can be placed.
pub open spec fn deployable_lines(definition: ItemDefinition) -> Seq<Seq<char>> {
    match definition.deployable {
        Some(profile) => seq![
            "Deployable: "@ + profile.label@,
            "Hold it, then left-click to place"@,
        ],
        None => Seq::empty(),
    }
}

/// One kind of protection, where there is any.
pub open spec fn protection_part(label: Seq<char>, pct: u8) -> Seq<Seq<char>> {
    if pct > 0 {
        seq![label + digits(pct as nat) + "%"@]
    } else {
        Seq::empty()
    }
}

/// The kinds of protection that a worn piece gives.
pub open spec fn protection_parts(melee: u8, projectile: u8, blast: u8) -> Seq<Seq<char>> {
    protection_part("Melee "@, melee) + protection_part("Ranged "@, projectile) + protection_part(
        "Blast "@,
        blast,
    )
}

/// The lines about a worn piece.
pub open spec fn armor_lines(definition: ItemDefinition, stack: ItemStack) -> Seq<Seq<char>> {
    match definition.armor {
        Some(armor) => {
            let parts = protection_parts(
                armor.melee_protection_pct,
                armor.projectile_protection_pct,
                armor.blast_protection_pct,
            );
            seq!["Fits: "@ + armor.slot.label_text() + " slot"@] + if parts.len() > 0 {
                seq!["Protection: "@ + joined(parts, "  "@)]
            } else {
                Seq::empty()
            } + durability_lines(stack.durability, armor.max_durability)
        },
        None => Seq::empty(),
    }
}

/// The line about the stack, for items that stack at all.
pub open spec fn stack_lines(definition: ItemDefinition, stack: ItemStack) -> Seq<Seq<char>> {
    if definition.stack_size > 1 {
        seq![
            "Stack: "@ + digits(stack.quantity as nat) + "/"@ + digits(
                definition.stack_size as nat,
            ),
        ]
    } else {
        Seq::empty()
    }
}

/// The lines of a tooltip.
pub open spec fn tooltip_lines(definition: ItemDefinition, stack: ItemStack) -> Seq<Seq<char>> {
    seq![definition.description@] + tool_lines(definition, stack) + deployable_lines(definition)
        + armor_lines(definition, stack) + if definition.equipable {
        seq!["Equipable"@]
    } else {
        Seq::empty()
    } + stack_lines(definition, stack)
}

/// The body of a tooltip: an item that the registry does not know is told with
/// its quantity only.
pub open spec fn tooltip_text(items: Seq<ItemDefinition>, stack: ItemStack) -> Seq<char> {
    match item_of(items, stack.item_id@) {
        Some(definition) => joined(tooltip_lines(definition, stack), "\n"@),
        None => "Unknown item\nQuantity: "@ + digits(stack.quantity as nat),
    }
}

fn push_line(lines: &mut Vec<String>, line: String)
    ensures
        texts(final(lines)@) == texts(old(lines)@) + seq![line@],
{
    let ghost before = lines@;
    lines.push(line);
    proof {
        assert(texts(lines@) =~= texts(before) + seq![line@]);
    }
}

fn push_durability(lines: &mut Vec<String>, remaining: Option<u16>, max: Option<u16>)
    ensures
        texts(final(lines)@) == texts(old(lines)@) + durability_lines(remaining, max),
{
    if let Some(remaining) = remaining {
        if let Some(max) = max {
            let left = decimal(remaining as u64);
            let full = decimal(max as u64);
            let mut line = concat3("Durability: ", left.as_str(), "/");
            line.append(full.as_str());
            push_line(lines, line);
            return;
        }
    }
    proof {
        assert(texts(lines@) =~= texts(lines@) + Seq::<Seq<char>>::empty());
    }
}

fn push_tool(lines: &mut Vec<String>, definition: &ItemDefinition, stack: &ItemStack)
    ensures
        texts(final(lines)@) == texts(old(lines)@) + tool_lines(*definition, *stack),
{
    let ghost before = texts(lines@);
    match &definition.tool {
        Some(tool) => {
            let tier = decimal(tool.tier as u64);
            let gathers = decimal(tool.gather_amount as u64);
            let mut line = concat5(
                tool.kind_label.as_str(),
                " · Tier ",
                tier.as_str(),
                " · gathers ",
                gathers.as_str(),
            );
            line.append(" per hit");
            let ghost told = line@;
            push_line(lines, line);
            push_durability(lines, stack.durability, tool.max_durability);
            proof {
                assert(texts(lines@) =~= before + (seq![told] + durability_lines(
                    stack.durability,
                    tool.max_durability,
                )));
            }
        },
        None => {
            proof {
                assert(texts(lines@) =~= before + Seq::<Seq<char>>::empty());
            }
        },
    }
}

fn push_deployable(lines: &mut Vec<String>, definition: &ItemDefinition)
    ensures
        texts(final(lines)@) == texts(old(lines)@) + deployable_lines(*definition),
{
    let ghost before = texts(lines@);
    match &definition.deployable {
        Some(profile) => {
            let first = concat2("Deployable: ", profile.label.as_str());
            let ghost told = first@;
            push_line(lines, first);
            push_line(lines, "Hold it, then left-click to place".to_owned());
            proof {
                assert(texts(lines@) =~= before + seq![
                    told,
                    "Hold it, then left-click to place"@,
                ]);
            }
        },
        None => {
            proof {
                assert(texts(lines@) =~= before + Seq::<Seq<char>>::empty());
            }
        },
    }
}

fn push_protection(parts: &mut Vec<String>, label: &str, pct: u8)
    ensures
        texts(final(parts)@) == texts(old(parts)@) + protection_part(label@, pct),
{
    if pct > 0 {
        let value = decimal(pct as u64);
        push_line(parts, concat3(label, value.as_str(), "%"));
    } else {
        proof {
            assert(texts(parts@) =~= texts(parts@) + Seq::<Seq<char>>::empty());
        }
    }
}

fn push_armor(lines: &mut Vec<String>, definition: &ItemDefinition, stack: &ItemStack)
    ensures
        texts(final(lines)@) == texts(old(lines)@) + armor_lines(*definition, *stack),
{
    let ghost before = texts(lines@);
    match &definition.armor {
        Some(armor) => {
            let slot = armor.slot.label();
            let fits = concat3("Fits: ", slot.as_str(), " slot");
            let ghost first = fits@;
            push_line(lines, fits);
            let mut parts: Vec<String> = Vec::new();
            proof {
                assert(texts(parts@) =~= Seq::<Seq<char>>::empty());
            }
            push_protection(&mut parts, "Melee ", armor.melee_protection_pct);
            push_protection(&mut parts, "Ranged ", armor.projectile_protection_pct);
            push_protection(&mut parts, "Blast ", armor.blast_protection_pct);
            let ghost listed = protection_parts(
                armor.melee_protection_pct,
                armor.projectile_protection_pct,
                armor.blast_protection_pct,
            );
            proof {
                assert(texts(parts@) =~= listed);
                assert(parts@.len() == listed.len());
            }
            if parts.len() > 0 {
                let told = join(&parts, "  ");
                push_line(lines, concat2("Protection: ", told.as_str()));
            }
            push_durability(lines, stack.durability, armor.max_durability);
            proof {
                assert(texts(lines@) =~= before + armor_lines(*definition, *stack));
            }
        },
        None => {
            proof {
                assert(texts(lines@) =~= before + Seq::<Seq<char>>::empty());
            }
        },
    }
}

/// Writes the body of a stack's tooltip.
pub fn item_tooltip_body(items: &Vec<ItemDefinition>, stack: &ItemStack) -> (r: String)
    ensures
        r@ == tooltip_text(items@, *stack),
{
    let definition = match item_definition(items, stack.item_id.as_str()) {
        Some(definition) => definition,
        None => {
            let quantity = decimal(stack.quantity as u64);
            return concat2("Unknown item\nQuantity: ", quantity.as_str());
        },
    };
    let mut lines: Vec<String> = Vec::new();
    proof {
        assert(texts(lines@) =~= Seq::<Seq<char>>::empty());
    }
    push_line(&mut lines, definition.description.clone());
    push_tool(&mut lines, definition, stack);
    push_deployable(&mut lines, definition);
    push_armor(&mut lines, definition, stack);
    if definition.equipable {
        push_line(&mut lines, "Equipable".to_owned());
    }
    if definition.stack_size > 1 {
        let quantity = decimal(stack.quantity as u64);
        let limit = decimal(definition.stack_size as u64);
        let mut line = concat3("Stack: ", quantity.as_str(), "/");
        line.append(limit.as_str());
        push_line(&mut lines, line);
    }
    proof {
        assert(texts(lines@) =~= tooltip_lines(*definition, *stack));
    }
    join(&lines, "\n")
}

/// The background of a slot: the active one stands out before the hovered one.
pub fn slot_fill(active: bool, hovered: bool) -> (r: Rgba)
    ensures
        r == if active {
            shade(21, 44, 72, 236)
        } else if hovered {
            shade(34, 43, 54, 238)
        } else {
            shade(8, 12, 18, 232)
        },
{
    if active {
        translucent(21, 44, 72, 236)
    } else if hovered {
        translucent(34, 43, 54, 238)
    } else {
        translucent(8, 12, 18, 232)
    }
}

/// The wear bar of a tool: what is left, and of how much. Stacks without wear
/// and tools that never break have none.
pub open spec fn wear_of(items: Seq<ItemDefinition>, stack: ItemStack) -> Option<(u16, u16)> {
    match (stack.durability, item_of(items, stack.item_id@)) {
        (Some(remaining), Some(definition)) => match definition.tool {
            Some(tool) => match tool.max_durability {
                Some(max) => if max > 0 {
                    Some((remaining, max))
                } else {
                    None
                },
                None => None,
            },
            None => None,
        },
        _ => None,
    }
}

/// Finds the wear bar of a stack.
pub fn durability_bar(items: &Vec<ItemDefinition>, stack: &ItemStack) -> (r: Option<(u16, u16)>)
    ensures
        r == wear_of(items@, *stack),
{
    let remaining = match stack.durability {
        Some(remaining) => remaining,
        None => {
            return None;
        },
    };
    match item_definition(items, stack.item_id.as_str()) {
        Some(definition) => match &definition.tool {
            Some(tool) => match tool.max_durability {
                Some(max) => if max > 0 {
                    Some((remaining, max))
                } else {
                    None
                },
                None => None,
            },
            None => None,
        },
        None => None,
    }
}

/// The colour of a wear bar with something left: green above the half, then through
/// yellow into red.
pub open spec fn wear_shade(remaining: u16, max: u16) -> Rgba {
    let left = if remaining > max {
        max as int
    } else {
        remaining as int
    };
    if 2 * left > max {
        solid((460 * (max - left) / max as int + 25) as u8, 200, 70)
    } else {
        solid(235, (400 * left / max as int + 30) as u8, 50)
    }
}

/// Picks the colour of a wear bar; a broken tool's bar has no fill.
pub fn wear_color(remaining: u16, max: u16) -> (r: Option<Rgba>)
    requires
        max > 0,
    ensures
        r == if remaining == 0 {
            None
        } else {
            Some(wear_shade(remaining, max))
        },
{
    if remaining == 0 {
        return None;
    }
    let left: u32 = if remaining > max {
        max as u32
    } else {
        remaining as u32
    };
    let all: u32 = max as u32;
    proof {
        let l = left as int;
        let m = all as int;
        if 2 * l > m {
            assert(0 <= 460 * (m - l) / m <= 229) by (nonlinear_arith)
                requires
                    0 < m,
                    l <= m,
                    2 * l > m,
            ;
        } else {
            assert(0 <= 400 * l / m <= 200) by (nonlinear_arith)
                requires
                    0 < m,
                    0 <= l,
                    2 * l <= m,
            ;
        }
    }
    Some(
        if 2 * left > all {
            opaque((460 * (all - left) / all + 25) as u8, 200, 70)
        } else {
            opaque(235, (400 * left / all + 30) as u8, 50)
        },
    )
}

/// The glow of a slot that gained items: its fill and its outline. The strength is
/// in millionths, at most one; a glow too weak to be seen is none.
pub fn slot_flash(strength: u32) -> (r: Option<(Rgba, Rgba)>)
    ensures
        ({
            let held = if strength > 1_000_000 {
                1_000_000
            } else {
                strength as int
            };
            let fill = 140 * held / 1_000_000;
            let outline = 210 * held / 1_000_000;
            r == if fill == 0 && outline == 0 {
                None
            } else {
                Some((shade(255, 214, 138, fill as u8), shade(255, 232, 180, outline as u8)))
            }
        }),
{
    let held: u32 = if strength > 1_000_000 {
        1_000_000
    } else {
        strength
    };
    let fill: u8 = (140 * held / 1_000_000) as u8;
    let outline: u8 = (210 * held / 1_000_000) as u8;
    if fill == 0 && outline == 0 {
        return None;
    }
    Some((translucent(255, 214, 138, fill), translucent(255, 232, 180, outline)))
}

/// The outline of a slot, and its width in pixels.
pub fn slot_outline(active: bool) -> (r: (Rgba, u8))
    ensures
        r.0 == if active {
            solid(96, 168, 255)
        } else {
            shade(115, 132, 151, 92)
        },
        r.1 == if active {
            2int
        } else {
            1
        },
{
    if active {
        (opaque(96, 168, 255), 2)
    } else {
        (translucent(115, 132, 151, 92), 1)
    }
}

/// The number in the corner of a slot, for more than one item.
pub fn count_badge(stack: &ItemStack) -> (r: Option<String>)
    ensures
        crate::text::opt_text(r) == if stack.quantity > 1 {
            Some(digits(stack.quantity as nat))
        } else {
            None
        },
{
    if stack.quantity > 1 {
        Some(decimal(stack.quantity as u64))
    } else {
        None
    }
}

/// A press on a filled slot with nothing dragged takes the stack up: all of it with the
/// primary button, and with the secondary one so much that what stays is as much or one
/// less. Where shift hands stacks over, the slot is handed over and nothing is taken up.
pub proof fn press_takes_the_stack_up(
    state: InventoryUiState,
    slot: UnifiedSlotRef,
    stack: ItemStack,
    shift_transfer: bool,
    pointer: SlotPointer,
)
    requires
        state.drag is None,
        pointer.over_slot,
        pointer.primary_pressed || pointer.secondary_pressed,
        stack.quantity > 0,
    ensures
        ({
            let after = slot_drawn(state, slot, Some(stack), true, shift_transfer, pointer);
            let handed = pointer.primary_pressed && pointer.shift_held && shift_transfer;
            if handed {
                &&& after.pending_quick_transfer == Some(slot)
                &&& after.drag is None
            } else {
                let drag = after.drag->0;
                let stays = stack.quantity - drag.quantity;
                &&& after.drag is Some
                &&& after.pending_quick_transfer == state.pending_quick_transfer
                &&& drag.source == slot
                &&& drag.stack == stack
                &&& drag.button == InventoryDragButton::Primary <==> pointer.primary_pressed
                &&& pointer.primary_pressed ==> stays == 0
                &&& !pointer.primary_pressed ==> stays <= drag.quantity <= stays + 1
            }
        }),
{
}

/// Without a press, over another place, or on an empty slot nothing is taken up or
/// handed over.
pub proof fn nothing_is_taken_up_without_a_press(
    state: InventoryUiState,
    slot: UnifiedSlotRef,
    stack: Option<ItemStack>,
    interactive: bool,
    shift_transfer: bool,
    pointer: SlotPointer,
)
    requires
        !interactive || !pointer.over_slot || stack is None || (!pointer.primary_pressed
            && !pointer.secondary_pressed),
    ensures
        slot_drawn(state, slot, stack, interactive, shift_transfer, pointer).drag == state.drag,
        slot_drawn(
            state,
            slot,
            stack,
            interactive,
            shift_transfer,
            pointer,
        ).pending_quick_transfer == state.pending_quick_transfer,
{
}

/// The slot under the pointer is the hovered one, whether or not it is filled or
/// something is dragged; a slot elsewhere leaves the hovered one alone.
pub proof fn slot_under_the_pointer_is_hovered(
    state: InventoryUiState,
    slot: UnifiedSlotRef,
    stack: Option<ItemStack>,
    shift_transfer: bool,
    pointer: SlotPointer,
)
    ensures
        slot_drawn(state, slot, stack, true, shift_transfer, pointer).hovered_slot
            == if pointer.over_slot {
            Some(slot)
        } else {
            state.hovered_slot
        },
        slot_drawn(state, slot, stack, true, shift_transfer, pointer).admin_tab
            == state.admin_tab,
{
}

/// A wear bar stands for a tool that wears, with the wear of the stack itself and the
/// most that its tool can have.
pub proof fn wear_bar_tells_the_tools_wear(
    items: Seq<ItemDefinition>,
    stack: ItemStack,
    k: int,
)
    requires
        0 <= k < items.len(),
        items[k].id@ == stack.item_id@,
        forall|i: int| 0 <= i < k ==> (#[trigger] items[i]).id@ != stack.item_id@,
    ensures
        wear_of(items, stack) is Some <==> stack.durability is Some && items[k].tool is Some
            && items[k].tool->0.max_durability is Some && items[k].tool->0.max_durability->0 > 0,
        wear_of(items, stack) matches Some((left, most)) ==> stack.durability == Some(left)
            && items[k].tool->0.max_durability == Some(most),
{
    first_row_of_the_id_is_found(items, stack.item_id@, k);
}

/// The more wear, the redder the bar of the green kind and the less green the bar of
/// the red kind; above the half it is of the green kind, and from there down of the red.
pub proof fn wear_only_reddens(less: u16, more: u16, max: u16)
    requires
        0 < less <= more <= max,
    ensures
        2 * more > max ==> wear_shade(more, max).g == 200,
        2 * less <= max ==> wear_shade(less, max).r == 235,
        2 * less > max ==> wear_shade(less, max).r >= wear_shade(more, max).r,
        2 * more <= max ==> wear_shade(less, max).g <= wear_shade(more, max).g,
        wear_shade(max, max).r == 25,
{
    let m = max as int;
    let a = less as int;
    let b = more as int;
    wear_share(460, m - b, m);
    wear_share(460, m - a, m);
    wear_share(400, a, m);
    wear_share(400, b, m);
    assert(460 * (m - b) / m <= 460 * (m - a) / m) by (nonlinear_arith)
        requires
            a <= b,
            0 < m,
    ;
    assert(400 * a / m <= 400 * b / m) by (nonlinear_arith)
        requires
            a <= b,
            0 < m,
    ;
    if 2 * a > m {
        assert(460 * (m - a) / m <= 230) by (nonlinear_arith)
            requires
                2 * a > m,
                0 < m,
        ;
    }
    if 2 * b > m {
        assert(460 * (m - b) / m <= 230) by (nonlinear_arith)
            requires
                2 * b > m,
                0 < m,
        ;
        assert(2 * b > m);
    }
    if 2 * a <= m {
        assert(400 * a / m <= 200) by (nonlinear_arith)
            requires
                2 * a <= m,
                0 < m,
        ;
    }
    if 2 * b <= m {
        assert(400 * b / m <= 200) by (nonlinear_arith)
            requires
                2 * b <= m,
                0 < m,
        ;
    }
    assert(460 * (m - m) / m == 0) by (nonlinear_arith)
        requires
            0 < m,
    ;
}

proof fn wear_share(scale: int, part: int, whole: int)
    requires
        0 <= scale,
        0 <= part <= whole,
        0 < whole,
    ensures
        0 <= scale * part / whole <= scale,
{
    assert(0 <= scale * part / whole <= scale) by (nonlinear_arith)
        requires
            0 <= scale,
            0 <= part <= whole,
            0 < whole,
    ;
}

/// A tooltip opens with the item's description and closes with the stack line of
/// whatever stacks; each line about a tool, a structure or a worn piece is there exactly
/// where the item is one.
pub proof fn tooltip_tells_what_the_item_is(definition: ItemDefinition, stack: ItemStack)
    ensures
        ({
            let lines = tooltip_lines(definition, stack);
            &&& lines.len() > 0
            &&& lines[0] == definition.description@
            &&& definition.stack_size > 1 ==> lines.last() == "Stack: "@ + digits(
                stack.quantity as nat,
            ) + "/"@ + digits(definition.stack_size as nat)
            &&& definition.tool is Some ==> lines.len() > 1 && lines[1]
                == definition.tool->0.kind_label@ + " · Tier "@ + digits(
                definition.tool->0.tier as nat,
            ) + " · gathers "@ + digits(definition.tool->0.gather_amount as nat) + " per hit"@
            &&& definition.tool is None && definition.deployable is None && definition.armor is None
                && !definition.equipable && definition.stack_size <= 1 ==> lines.len() == 1
        }),
{
    let lines = tooltip_lines(definition, stack);
    let head = seq![definition.description@];
    let tool = tool_lines(definition, stack);
    assert((head + tool)[0] == definition.description@);
    if definition.tool is Some {
        assert((head + tool)[1] == tool[0]);
    }
    if definition.stack_size > 1 {
        assert(lines.last() == stack_lines(definition, stack)[0]);
    }
}

/// A worn piece tells each kind of protection that it gives and none that it does not.
pub proof fn protection_is_told_kind_by_kind(melee: u8, projectile: u8, blast: u8)
    ensures
        ({
            let parts = protection_parts(melee, projectile, blast);
            &&& melee > 0 ==> parts.contains("Melee "@ + digits(melee as nat) + "%"@)
            &&& projectile > 0 ==> parts.contains("Ranged "@ + digits(projectile as nat) + "%"@)
            &&& blast > 0 ==> parts.contains("Blast "@ + digits(blast as nat) + "%"@)
            &&& parts.len() == (if melee > 0 {
                1int
            } else {
                0
            }) + (if projectile > 0 {
                1int
            } else {
                0
            }) + (if blast > 0 {
                1int
            } else {
                0
            })
        }),
{
    let parts = protection_parts(melee, projectile, blast);
    let first: int = if melee > 0 {
        1
    } else {
        0
    };
    let second: int = first + if projectile > 0 {
        1int
    } else {
        0
    };
    if melee > 0 {
        assert(parts[0] == "Melee "@ + digits(melee as nat) + "%"@);
    }
    if projectile > 0 {
        assert(parts[first] == "Ranged "@ + digits(projectile as nat) + "%"@);
    }
    if blast > 0 {
        assert(parts[second] == "Blast "@ + digits(blast as nat) + "%"@);
    }
}

/// A wear line is told exactly where both the stack and its profile have a wear, what is
/// left before the most there can be.
pub proof fn wear_lines_tell_both_numbers(left: u16, most: u16)
    ensures
        durability_lines(Some(left), Some(most)) == seq![
            "Durability: "@ + digits(left as nat) + "/"@ + digits(most as nat),
        ],
        durability_lines(None, Some(most)).len() == 0,
        durability_lines(Some(left), None).len() == 0,
{
}

/// A worn piece tells where it fits, then how it protects where it does at all, then its
/// wear where it has one; what is not worn tells none of it.
pub proof fn worn_pieces_tell_where_they_fit(
    definition: ItemDefinition,
    stack: ItemStack,
)
    ensures
        ({
            let lines = armor_lines(definition, stack);
            &&& definition.armor is None ==> lines.len() == 0
            &&& definition.armor matches Some(armor) ==> {
                let guards = armor.melee_protection_pct > 0 || armor.projectile_protection_pct > 0
                    || armor.blast_protection_pct > 0;
                let wears = stack.durability is Some && armor.max_durability is Some;
                &&& lines[0] == "Fits: "@ + armor.slot.label_text() + " slot"@
                &&& lines.len() == 1 + (if guards {
                    1int
                } else {
                    0
                }) + (if wears {
                    1int
                } else {
                    0
                })
                &&& guards ==> lines[1] == "Protection: "@ + joined(
                    protection_parts(
                        armor.melee_protection_pct,
                        armor.projectile_protection_pct,
                        armor.blast_protection_pct,
                    ),
                    "  "@,
                )
                &&& wears ==> lines.last() == durability_text(
                    stack.durability->0,
                    armor.max_durability->0,
                )
            }
        }),
{
    if let Some(armor) = definition.armor {
        protection_is_told_kind_by_kind(
            armor.melee_protection_pct,
            armor.projectile_protection_pct,
            armor.blast_protection_pct,
        );
    }
}

/// Each part of a tooltip has as many lines as the item has to tell, and none is left
/// out.
pub proof fn tooltip_leaves_nothing_out(definition: ItemDefinition, stack: ItemStack)
    ensures
        tooltip_lines(definition, stack).len() == 1 + (if definition.tool is Some {
            1int
        } else {
            0
        }) + (if definition.tool is Some && stack.durability is Some
            && definition.tool->0.max_durability is Some {
            1int
        } else {
            0
        }) + (if definition.deployable is Some {
            2int
        } else {
            0
        }) + armor_lines(definition, stack).len() + (if definition.equipable {
            1int
        } else {
            0
        }) + (if definition.stack_size > 1 {
            1int
        } else {
            0
        }),
        definition.deployable matches Some(profile) ==> deployable_lines(definition)[0]
            == "Deployable: "@ + profile.label@,
        definition.tool is Some && stack.durability is Some && definition.tool->0.max_durability
            is Some ==> tool_lines(definition, stack).last() == durability_text(
            stack.durability->0,
            definition.tool->0.max_durability->0,
        ),
{
}

/// A known item is told by its own lines, and an unknown one by its quantity.
pub proof fn known_items_are_told_by_their_lines(
    items: Seq<ItemDefinition>,
    stack: ItemStack,
    k: int,
)
    requires
        0 <= k < items.len(),
        items[k].id@ == stack.item_id@,
        forall|i: int| 0 <= i < k ==> (#[trigger] items[i]).id@ != stack.item_id@,
    ensures
        tooltip_text(items, stack) == joined(tooltip_lines(items[k], stack), "\n"@),
        tooltip_text(Seq::empty(), stack) == "Unknown item\nQuantity: "@ + digits(
            stack.quantity as nat,
        ),
{
    first_row_of_the_id_is_found(items, stack.item_id@, k);
}

/// Only the slot that a drag was begun on is its source.
pub proof fn drags_have_one_source(state: InventoryUiState, slot: UnifiedSlotRef)
    ensures
        state.drag is None ==> !drags_from(state, slot),
        state.drag matches Some(drag) ==> (drags_from(state, slot) <==> slot == drag.source),
{
}

} // verus!
