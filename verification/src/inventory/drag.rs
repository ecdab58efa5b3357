//! Dragging stacks between slots: which command a release becomes, and which
//! of them the client predicts.
use vstd::prelude::*;
use crate::inventory::slot::{
    FurnaceSlotRef, InventoryDrag, InventoryDragButton, InventoryUiState, SlotPointer,
    UnifiedSlotRef, press_takes_the_stack_up, slot_drawn,
};
use crate::items::{
    ItemContainer, ItemContainerSlot, ItemDefinition, ItemStack, PlayerInventoryState,
    item_definition, item_of, slot_stack,
};
use crate::menu::MenuState;

verus! {

/// What the server is asked to do. A bag command names its slots as they stand on
/// the screen.
#[allow(inconsistent_fields)]
#[derive(Clone, Copy, Debug, PartialEq, Eq)]
pub enum SlotCommand {
    InventoryMove {
        from: ItemContainerSlot,
        to: ItemContainerSlot,
        quantity: Option<u16>,
        seq: u32,
    },
    InventoryDrop { from: ItemContainerSlot, quantity: Option<u16>, seq: u32 },
    FurnaceMove { from: FurnaceSlotRef, to: FurnaceSlotRef, quantity: Option<u16> },
    LootBagMove { from: UnifiedSlotRef, to: UnifiedSlotRef, quantity: Option<u16> },
}

/// An action that the client shows before the server confirms it.
#[derive(Clone, Copy, Debug, PartialEq, Eq)]
pub enum PredictedAction {
    Move { seq: u32, from: ItemContainerSlot, to: ItemContainerSlot, quantity: Option<u16> },
    Drop { seq: u32, from: ItemContainerSlot, quantity: Option<u16> },
}

/// The actions that the client predicted and the server has not confirmed.
/// Sequence numbers start at one: zero marks an action that is not predicted.
pub struct PredictionState {
    pub last_seq: u32,
    pub pending: Vec<PredictedAction>,
}

/// The sequence number after `last`: one more, and one again behind the
/// largest.
pub open spec fn next_seq(last: u32) -> u32 {
    if last == u32::MAX {
        1
    } else {
        (last + 1) as u32
    }
}

impl PredictionState {
    /// Nothing predicted yet.
    pub fn new() -> (r: Self)
        ensures
            r.last_seq == 0,
            r.pending@ == Seq::<PredictedAction>::empty(),
    {
        PredictionState { last_seq: 0, pending: Vec::new() }
    }

    /// Takes the next sequence number, which is never zero.
    pub fn alloc_seq(&mut self) -> (r: u32)
        ensures
            r == next_seq(old(self).last_seq),
            r != 0,
            final(self).last_seq == r,
            final(self).pending == old(self).pending,
    {
        self.last_seq = if self.last_seq == u32::MAX {
            1
        } else {
            self.last_seq + 1
        };
        self.last_seq
    }

    /// Whether nothing is predicted.
    pub fn is_idle(&self) -> (r: bool)
        ensures
            r == (self.pending@.len() == 0),
    {
        self.pending.len() == 0
    }
}

/// Whether a slot of a known inventory holds something.
pub open spec fn holds(inventory: Option<&PlayerInventoryState>, slot: ItemContainerSlot) -> bool {
    inventory matches Some(carried) && carried.stack_in(slot) is Some
}

/// Whether a drop is predicted: whenever the inventory is known. Taking from an
/// empty slot does no harm when the prediction is replayed.
pub open spec fn drop_is_predicted(inventory: Option<&PlayerInventoryState>) -> bool {
    inventory is Some
}

/// Whether a move is predicted: only from a filled slot to an empty one. Swaps
/// and merges are left to the server.
pub open spec fn move_is_predicted(
    inventory: Option<&PlayerInventoryState>,
    from: ItemContainerSlot,
    to: ItemContainerSlot,
) -> bool {
    holds(inventory, from) && !holds(inventory, to)
}

/// Predicts a drop and returns its sequence number, zero where it is not
/// predicted, which is where the inventory is not known.
pub fn predict_drop(
    prediction: &mut PredictionState,
    inventory: Option<&PlayerInventoryState>,
    from: ItemContainerSlot,
    quantity: Option<u16>,
) -> (r: u32)
    ensures
        drop_is_predicted(inventory) ==> {
            &&& r == next_seq(old(prediction).last_seq)
            &&& r != 0
            &&& final(prediction).last_seq == r
            &&& final(prediction).pending@ == old(prediction).pending@.push(
                PredictedAction::Drop { seq: r, from, quantity },
            )
        },
        !drop_is_predicted(inventory) ==> r == 0 && *final(prediction) == *old(prediction),
{
    if inventory.is_none() {
        return 0;
    }
    let seq = prediction.alloc_seq();
    prediction.pending.push(PredictedAction::Drop { seq, from, quantity });
    seq
}

/// Predicts a move within the player's slots and returns its sequence number,
/// zero where it is not predicted.
pub fn predict_move(
    prediction: &mut PredictionState,
    inventory: Option<&PlayerInventoryState>,
    from: ItemContainerSlot,
    to: ItemContainerSlot,
    quantity: Option<u16>,
) -> (r: u32)
    ensures
        move_is_predicted(inventory, from, to) ==> {
            &&& r == next_seq(old(prediction).last_seq)
            &&& r != 0
            &&& final(prediction).last_seq == r
            &&& final(prediction).pending@ == old(prediction).pending@.push(
                PredictedAction::Move { seq: r, from, to, quantity },
            )
        },
        !move_is_predicted(inventory, from, to) ==> r == 0 && *final(prediction) == *old(
            prediction,
        ),
{
    let carried = match inventory {
        Some(carried) => carried,
        None => {
            return 0;
        },
    };
    if slot_stack(carried, to).is_some() || slot_stack(carried, from).is_none() {
        return 0;
    }
    let seq = prediction.alloc_seq();
    prediction.pending.push(PredictedAction::Move { seq, from, to, quantity });
    seq
}

/// The sequence number that a predicted action gets, zero otherwise.
pub open spec fn seq_if(predicted: bool, last: u32) -> u32 {
    if predicted {
        next_seq(last)
    } else {
        0
    }
}

/// The command that a move between two slots becomes: anything with a bag is a
/// bag command, moves within the player's slots are inventory commands, and
/// everything else is a furnace command.
pub open spec fn move_command(
    inventory: Option<&PlayerInventoryState>,
    last_seq: u32,
    source: UnifiedSlotRef,
    target: UnifiedSlotRef,
    quantity: Option<u16>,
) -> SlotCommand {
    match (source, target) {
        (UnifiedSlotRef::Player(from), UnifiedSlotRef::Player(to)) => SlotCommand::InventoryMove {
            from,
            to,
            quantity,
            seq: seq_if(move_is_predicted(inventory, from, to), last_seq),
        },
        (UnifiedSlotRef::Player(from), UnifiedSlotRef::Furnace(to)) => SlotCommand::FurnaceMove {
            from: FurnaceSlotRef::Player(from),
            to,
            quantity,
        },
        (UnifiedSlotRef::Furnace(from), UnifiedSlotRef::Player(to)) => SlotCommand::FurnaceMove {
            from,
            to: FurnaceSlotRef::Player(to),
            quantity,
        },
        (UnifiedSlotRef::Furnace(from), UnifiedSlotRef::Furnace(to)) => SlotCommand::FurnaceMove {
            from,
            to,
            quantity,
        },
        _ => SlotCommand::LootBagMove { from: source, to: target, quantity },
    }
}

/// Whether a command asks for just this: so many items from the one slot into the
/// other, both named as the server of that container knows them.
pub open spec fn asks_to_move(
    command: SlotCommand,
    source: UnifiedSlotRef,
    target: UnifiedSlotRef,
    wanted: Option<u16>,
) -> bool {
    match command {
        SlotCommand::InventoryMove { from, to, quantity, .. } => {
            &&& source == UnifiedSlotRef::Player(from)
            &&& target == UnifiedSlotRef::Player(to)
            &&& quantity == wanted
        },
        SlotCommand::FurnaceMove { from, to, quantity } => {
            &&& source is Furnace || target is Furnace
            &&& source == UnifiedSlotRef::Furnace(from) || (from matches FurnaceSlotRef::Player(
                slot,
            ) && source == UnifiedSlotRef::Player(slot))
            &&& target == UnifiedSlotRef::Furnace(to) || (to matches FurnaceSlotRef::Player(slot)
                && target == UnifiedSlotRef::Player(slot))
            &&& quantity == wanted
        },
        SlotCommand::LootBagMove { from, to, quantity } => {
            &&& source is Bag || target is Bag
            &&& from == source
            &&& to == target
            &&& quantity == wanted
        },
        SlotCommand::InventoryDrop { .. } => false,
    }
}

/// What is predicted along with a move.
pub open spec fn prediction_after_move(
    old: PredictionState,
    new: PredictionState,
    inventory: Option<&PlayerInventoryState>,
    source: UnifiedSlotRef,
    target: UnifiedSlotRef,
    quantity: Option<u16>,
) -> bool {
    match (source, target) {
        (UnifiedSlotRef::Player(from), UnifiedSlotRef::Player(to)) => if move_is_predicted(
            inventory,
            from,
            to,
        ) {
            &&& new.last_seq == next_seq(old.last_seq)
            &&& new.pending@ == old.pending@.push(
                PredictedAction::Move { seq: next_seq(old.last_seq), from, to, quantity },
            )
        } else {
            new == old
        },
        _ => new == old,
    }
}

/// Turns a move between two slots into a command, and predicts it where it can
/// be predicted. Every move becomes one command.
pub fn send_move_command(
    prediction: &mut PredictionState,
    inventory: Option<&PlayerInventoryState>,
    source: UnifiedSlotRef,
    target: UnifiedSlotRef,
    quantity: Option<u16>,
) -> (r: SlotCommand)
    ensures
        r == move_command(inventory, old(prediction).last_seq, source, target, quantity),
        source is Bag || target is Bag ==> r == (SlotCommand::LootBagMove {
            from: source,
            to: target,
            quantity,
        }),
        prediction_after_move(
            *old(prediction),
            *final(prediction),
            inventory,
            source,
            target,
            quantity,
        ),
        asks_to_move(r, source, target, quantity),
        r matches SlotCommand::InventoryMove { from, to, seq, .. } ==> {
            let known = inventory is Some;
            let moves = known && inventory->0.stack_in(from) is Some && inventory->0.stack_in(
                to,
            ) is None;
            &&& moves ==> seq != 0 && final(prediction).last_seq == seq
                && final(prediction).pending@ == old(prediction).pending@.push(
                PredictedAction::Move { seq, from, to, quantity },
            )
            &&& moves && old(prediction).last_seq < u32::MAX ==> seq == old(prediction).last_seq
                + 1
            &&& !moves ==> seq == 0 && *final(prediction) == *old(prediction)
        },
        !(r is InventoryMove) ==> *final(prediction) == *old(prediction),
{
    match (source, target) {
        (UnifiedSlotRef::Player(from), UnifiedSlotRef::Player(to)) => {
            let seq = predict_move(prediction, inventory, from, to, quantity);
            SlotCommand::InventoryMove { from, to, quantity, seq }
        },
        (UnifiedSlotRef::Player(from), UnifiedSlotRef::Furnace(to)) => SlotCommand::FurnaceMove {
            from: FurnaceSlotRef::Player(from),
            to,
            quantity,
        },
        (UnifiedSlotRef::Furnace(from), UnifiedSlotRef::Player(to)) => SlotCommand::FurnaceMove {
            from,
            to: FurnaceSlotRef::Player(to),
            quantity,
        },
        (UnifiedSlotRef::Furnace(from), UnifiedSlotRef::Furnace(to)) => SlotCommand::FurnaceMove {
            from,
            to,
            quantity,
        },
        _ => SlotCommand::LootBagMove { from: source, to: target, quantity },
    }
}

/// Where a pending quick equip goes: a worn piece in the bag or the actionbar
/// goes to the slot that its profile names. Everything else goes nowhere.
pub open spec fn quick_equip_target(
    items: Seq<ItemDefinition>,
    inventory: Option<&PlayerInventoryState>,
    pending: Option<UnifiedSlotRef>,
) -> Option<(ItemContainerSlot, ItemContainerSlot)> {
    match (pending, inventory) {
        (Some(UnifiedSlotRef::Player(source)), Some(carried)) => if source.container
            == ItemContainer::Equipment {
            None
        } else {
            match carried.stack_in(source) {
                Some(stack) => match item_of(items, stack.item_id@) {
                    Some(definition) => match definition.armor {
                        Some(armor) => Some(
                            (
                                source,
                                ItemContainerSlot {
                                    container: ItemContainer::Equipment,
                                    slot: armor.slot.position() as usize,
                                },
                            ),
                        ),
                        None => None,
                    },
                    None => None,
                },
                None => None,
            }
        },
        _ => None,
    }
}

/// Handles a pending quick equip: where it resolves, the intent is used up and
/// becomes a move of the whole stack; elsewhere nothing happens.
pub fn resolve_quick_equip(
    items: &Vec<ItemDefinition>,
    prediction: &mut PredictionState,
    inventory: Option<&PlayerInventoryState>,
    inventory_ui: &mut InventoryUiState,
) -> (r: Option<SlotCommand>)
    ensures
        match quick_equip_target(items@, inventory, old(inventory_ui).pending_quick_transfer) {
            Some((from, to)) => {
                &&& r == Some(
                    move_command(
                        inventory,
                        old(prediction).last_seq,
                        UnifiedSlotRef::Player(from),
                        UnifiedSlotRef::Player(to),
                        None,
                    ),
                )
                &&& prediction_after_move(
                    *old(prediction),
                    *final(prediction),
                    inventory,
                    UnifiedSlotRef::Player(from),
                    UnifiedSlotRef::Player(to),
                    None,
                )
                &&& *final(inventory_ui) == (InventoryUiState {
                    pending_quick_transfer: None,
                    ..*old(inventory_ui)
                })
            },
            None => {
                &&& r is None
                &&& *final(prediction) == *old(prediction)
                &&& *final(inventory_ui) == *old(inventory_ui)
            },
        },
{
    let source = match inventory_ui.pending_quick_transfer {
        Some(UnifiedSlotRef::Player(source)) => source,
        _ => {
            return None;
        },
    };
    if source.container == ItemContainer::Equipment {
        return None;
    }
    let carried = match inventory {
        Some(carried) => carried,
        None => {
            return None;
        },
    };
    let stack = match slot_stack(carried, source) {
        Some(stack) => stack,
        None => {
            return None;
        },
    };
    let definition = match item_definition(items, stack.item_id.as_str()) {
        Some(definition) => definition,
        None => {
            return None;
        },
    };
    match &definition.armor {
        Some(armor) => {
            let target = ItemContainerSlot::equipment(armor.slot);
            inventory_ui.pending_quick_transfer = None;
            let command = send_move_command(
                prediction,
                inventory,
                UnifiedSlotRef::Player(source),
                UnifiedSlotRef::Player(target),
                None,
            );
            Some(command)
        },
        None => None,
    }
}

/// Whether the pointer lies on one of the slot surfaces; a surface that is not
/// on screen holds nothing.
#[derive(Clone, Copy, Debug, PartialEq, Eq, Structural)]
pub struct SurfaceHits {
    /// Whether there is a pointer at all.
    pub pointer: bool,
    pub inventory: bool,
    pub actionbar: bool,
    pub furnace: bool,
    pub loot_bag: bool,
    pub equipment: bool,
}

/// Whether the pointer lies outside every slot surface.
pub open spec fn outside_surfaces(hits: SurfaceHits) -> bool {
    !hits.pointer || !(hits.inventory || hits.actionbar || hits.furnace || hits.loot_bag
        || hits.equipment)
}

/// Whether the pointer lies outside every slot surface.
pub fn pointer_is_outside_inventory_surfaces(hits: SurfaceHits) -> (r: bool)
    ensures
        r == outside_surfaces(hits),
{
    if !hits.pointer {
        return true;
    }
    !hits.inventory && !hits.actionbar && !hits.furnace && !hits.loot_bag && !hits.equipment
}

/// Whether a surface with slots is up.
pub open spec fn slots_open(menu: MenuState) -> bool {
    menu.inventory_open || menu.furnace_open || menu.loot_bag_open
}

/// The command that letting go of a drag becomes.
pub open spec fn release_command(
    inventory: Option<&PlayerInventoryState>,
    last_seq: u32,
    drag: InventoryDrag,
    hovered: Option<UnifiedSlotRef>,
    outside: bool,
) -> Option<SlotCommand> {
    match hovered {
        Some(target) => if target != drag.source {
            Some(move_command(inventory, last_seq, drag.source, target, Some(drag.quantity)))
        } else {
            None
        },
        None => match drag.source {
            UnifiedSlotRef::Player(from) => if outside {
                Some(
                    SlotCommand::InventoryDrop {
                        from,
                        quantity: Some(drag.quantity),
                        seq: seq_if(drop_is_predicted(inventory), last_seq),
                    },
                )
            } else {
                None
            },
            _ => None,
        },
    }
}

/// What a frame of dragging does.
#[derive(Clone, Copy, Debug, PartialEq, Eq)]
pub struct DragOutcome {
    /// The command of a quick equip.
    pub equip: Option<SlotCommand>,
    /// The command of a released drag.
    pub release: Option<SlotCommand>,
}

/// Whether quick equips are handled: on the plain inventory, where no other
/// container claims them.
pub open spec fn equips(menu: MenuState) -> bool {
    menu.inventory_open && !menu.furnace_open && !menu.loot_bag_open
}

/// The mouse buttons that were released in a frame.
#[derive(Clone, Copy, Debug, PartialEq, Eq, Structural)]
pub struct ButtonReleases {
    pub primary: bool,
    pub secondary: bool,
}

/// The button that a drag was begun with was released.
pub open spec fn let_go(button: InventoryDragButton, released: ButtonReleases) -> bool {
    match button {
        InventoryDragButton::Primary => released.primary,
        InventoryDragButton::Secondary => released.secondary,
    }
}

/// Handles quick equips and the release of a drag for one frame. Without a slot
/// surface a drag is let go of without a command. A drag whose own button is still
/// down goes on; otherwise it ends, over another slot as a move, and outside
/// every surface as a drop where it came from the player.
pub fn handle_drag_release(
    items: &Vec<ItemDefinition>,
    menu: &MenuState,
    prediction: &mut PredictionState,
    inventory: Option<&PlayerInventoryState>,
    inventory_ui: &mut InventoryUiState,
    released: ButtonReleases,
    hits: SurfaceHits,
) -> (r: DragOutcome)
    ensures
        ({
            let pending = old(inventory_ui).pending_quick_transfer;
            let equip = if equips(*menu) {
                quick_equip_target(items@, inventory, pending)
            } else {
                None
            };
            let dragged = old(inventory_ui).drag;
            let ends = slots_open(*menu) && (dragged matches Some(drag) && let_go(
                drag.button,
                released,
            ));
            &&& r.equip == match equip {
                Some((from, to)) => Some(
                    move_command(
                        inventory,
                        old(prediction).last_seq,
                        UnifiedSlotRef::Player(from),
                        UnifiedSlotRef::Player(to),
                        None,
                    ),
                ),
                None => None,
            }
            &&& *final(inventory_ui) == (InventoryUiState {
                pending_quick_transfer: if equip is Some {
                    None
                } else {
                    pending
                },
                drag: if ends || !slots_open(*menu) {
                    None
                } else {
                    dragged
                },
                ..*old(inventory_ui)
            })
            &&& exists|between: PredictionState|
                {
                    &&& match equip {
                        Some((from, to)) => prediction_after_move(
                            *old(prediction),
                            between,
                            inventory,
                            UnifiedSlotRef::Player(from),
                            UnifiedSlotRef::Player(to),
                            None,
                        ),
                        None => between == *old(prediction),
                    }
                    &&& r.release == if ends {
                        release_command(
                            inventory,
                            between.last_seq,
                            dragged->0,
                            old(inventory_ui).hovered_slot,
                            outside_surfaces(hits),
                        )
                    } else {
                        None
                    }
                    &&& #[trigger] prediction_after_release(
                        between,
                        *final(prediction),
                        inventory,
                        r.release,
                    )
                }
        }),
        r.release matches Some(SlotCommand::InventoryMove { quantity, .. }) ==> quantity == Some(
            old(inventory_ui).drag->0.quantity,
        ),
        r.release matches Some(SlotCommand::FurnaceMove { quantity, .. }) ==> quantity == Some(
            old(inventory_ui).drag->0.quantity,
        ),
        r.release matches Some(SlotCommand::LootBagMove { quantity, .. }) ==> quantity == Some(
            old(inventory_ui).drag->0.quantity,
        ),
        r.release matches Some(SlotCommand::InventoryDrop { from, quantity, seq }) ==> {
            &&& quantity == Some(old(inventory_ui).drag->0.quantity)
            &&& old(inventory_ui).drag->0.source == UnifiedSlotRef::Player(from)
            &&& old(inventory_ui).hovered_slot is None
            &&& inventory is Some ==> seq != 0 && final(prediction).pending@.last()
                == (PredictedAction::Drop { seq, from, quantity })
            &&& inventory is None ==> seq == 0
        },
        r.release matches Some(SlotCommand::InventoryMove { from, to, quantity, seq }) ==> (seq
            != 0 ==> final(prediction).pending@.last() == (PredictedAction::Move {
            seq,
            from,
            to,
            quantity,
        })),
        r.release is Some ==> old(inventory_ui).drag is Some,
        old(prediction).pending@.is_prefix_of(final(prediction).pending@),
        ({
            let open = menu.inventory_open || menu.furnace_open || menu.loot_bag_open;
            let drag = old(inventory_ui).drag->0;
            let hovered = old(inventory_ui).hovered_slot;
            let up = (drag.button == InventoryDragButton::Primary && released.primary) || (
            drag.button == InventoryDragButton::Secondary && released.secondary);
            let touched = hits.inventory || hits.actionbar || hits.furnace || hits.loot_bag
                || hits.equipment;
            if old(inventory_ui).drag is Some && open && up {
                &&& final(inventory_ui).drag is None
                &&& hovered is Some && hovered != Some(drag.source) ==> r.release is Some
                    && asks_to_move(r.release->0, drag.source, hovered->0, Some(drag.quantity))
                &&& hovered == Some(drag.source) ==> r.release is None
                &&& hovered is None ==> (r.release is Some <==> drag.source is Player && (
                !hits.pointer || !touched))
            } else {
                &&& r.release is None
                &&& open ==> final(inventory_ui).drag == old(inventory_ui).drag
                &&& !open ==> final(inventory_ui).drag is None
            }
        }),
        r.equip matches Some(command) ==> {
            &&& menu.inventory_open && !menu.furnace_open && !menu.loot_bag_open
            &&& command matches SlotCommand::InventoryMove { from, to, quantity, .. } && quantity
                is None && to.container == ItemContainer::Equipment && old(
                inventory_ui,
            ).pending_quick_transfer == Some(UnifiedSlotRef::Player(from))
            &&& final(inventory_ui).pending_quick_transfer is None
        },
        menu.inventory_open && !menu.furnace_open && !menu.loot_bag_open && quick_equip_target(
            items@,
            inventory,
            old(inventory_ui).pending_quick_transfer,
        ) is Some ==> r.equip is Some,
        r.equip is None ==> final(inventory_ui).pending_quick_transfer == old(
            inventory_ui,
        ).pending_quick_transfer,
{
    let mut equip: Option<SlotCommand> = None;
    if menu.inventory_open && !menu.furnace_open && !menu.loot_bag_open {
        equip = resolve_quick_equip(items, prediction, inventory, inventory_ui);
    }
    let ghost between = *prediction;
    if !menu.inventory_open && !menu.furnace_open && !menu.loot_bag_open {
        inventory_ui.cancel_drag();
        proof {
            assert(prediction_after_release(between, *prediction, inventory, None));
        }
        return DragOutcome { equip, release: None };
    }
    let done: bool = match &inventory_ui.drag {
        Some(drag) => match drag.button {
            InventoryDragButton::Primary => released.primary,
            InventoryDragButton::Secondary => released.secondary,
        },
        None => false,
    };
    if !done {
        proof {
            assert(prediction_after_release(between, *prediction, inventory, None));
        }
        return DragOutcome { equip, release: None };
    }
    let drag = match inventory_ui.drag.take() {
        Some(drag) => drag,
        None => {
            proof {
                assert(prediction_after_release(between, *prediction, inventory, None));
            }
            return DragOutcome { equip, release: None };
        },
    };
    let mut release: Option<SlotCommand> = None;
    if let Some(target) = inventory_ui.hovered_slot {
        if target != drag.source {
            let command = send_move_command(
                prediction,
                inventory,
                drag.source,
                target,
                Some(drag.quantity),
            );
            release = Some(command);
        }
    } else if pointer_is_outside_inventory_surfaces(hits) {
        if let UnifiedSlotRef::Player(from) = drag.source {
            let seq = predict_drop(prediction, inventory, from, Some(drag.quantity));
            release = Some(
                SlotCommand::InventoryDrop { from, quantity: Some(drag.quantity), seq },
            );
        }
    }
    proof {
        assert(prediction_after_release(between, *prediction, inventory, release));
    }
    DragOutcome { equip, release }
}

/// What is predicted along with a released drag: an inventory command that
/// carries a sequence number is pending under that number, and nothing else is
/// predicted.
pub open spec fn prediction_after_release(
    old: PredictionState,
    new: PredictionState,
    inventory: Option<&PlayerInventoryState>,
    release: Option<SlotCommand>,
) -> bool {
    match release {
        Some(SlotCommand::InventoryMove { from, to, quantity, seq }) => if move_is_predicted(
            inventory,
            from,
            to,
        ) {
            &&& new.last_seq == seq
            &&& new.pending@ == old.pending@.push(
                PredictedAction::Move { seq, from, to, quantity },
            )
        } else {
            new == old
        },
        Some(SlotCommand::InventoryDrop { from, quantity, seq }) => if drop_is_predicted(inventory) {
            &&& new.last_seq == seq
            &&& new.pending@ == old.pending@.push(PredictedAction::Drop { seq, from, quantity })
        } else {
            new == old
        },
        _ => new == old,
    }
}

/// Releasing a drag over the slot that it came from asks for nothing.
pub proof fn release_on_the_source_is_no_move(
    inventory: Option<&PlayerInventoryState>,
    last_seq: u32,
    drag: InventoryDrag,
    outside: bool,
)
    ensures
        release_command(inventory, last_seq, drag, Some(drag.source), outside) is None,
{
}

/// Only what comes from the player is ever dropped on the ground: items of a
/// furnace or a bag that are released over nothing stay where they were.
pub proof fn container_items_are_never_dropped(
    inventory: Option<&PlayerInventoryState>,
    last_seq: u32,
    drag: InventoryDrag,
    hovered: Option<UnifiedSlotRef>,
    outside: bool,
)
    requires
        !(drag.source is Player),
    ensures
        !(release_command(inventory, last_seq, drag, hovered, outside) matches Some(
            SlotCommand::InventoryDrop { .. },
        )),
{
}

/// A command carries a sequence number other than zero exactly where the action
/// is predicted.
pub proof fn nonzero_sequence_means_predicted(
    inventory: Option<&PlayerInventoryState>,
    last_seq: u32,
    from: ItemContainerSlot,
    to: ItemContainerSlot,
    quantity: Option<u16>,
)
    ensures
        move_command(
            inventory,
            last_seq,
            UnifiedSlotRef::Player(from),
            UnifiedSlotRef::Player(to),
            quantity,
        ) matches SlotCommand::InventoryMove { seq, .. } && (seq != 0
            <==> move_is_predicted(inventory, from, to)),
{
}

/// The stack that follows the pointer while dragging: the dragged part.
pub fn drag_preview(inventory_ui: &InventoryUiState, pointer: bool) -> (r: Option<ItemStack>)
    ensures
        r == match inventory_ui.drag {
            Some(drag) => if pointer {
                Some(ItemStack { quantity: drag.quantity, ..drag.stack })
            } else {
                None
            },
            None => None,
        },
{
    match &inventory_ui.drag {
        Some(drag) => if pointer {
            let mut stack = drag.stack.clone();
            stack.quantity = drag.quantity;
            Some(stack)
        } else {
            None
        },
        None => None,
    }
}

/// A released drag asks for as many items as were taken up, whatever command it
/// becomes: all of a stack that the primary button took up, and of one that the
/// secondary button took up so many that as many or one less stay behind.
pub proof fn release_asks_for_what_was_taken_up(
    inventory: Option<&PlayerInventoryState>,
    last_seq: u32,
    state: InventoryUiState,
    slot: UnifiedSlotRef,
    stack: ItemStack,
    pointer: SlotPointer,
    hovered: Option<UnifiedSlotRef>,
    outside: bool,
)
    requires
        state.drag is None,
        pointer.over_slot,
        pointer.primary_pressed || pointer.secondary_pressed,
        stack.quantity > 0,
    ensures
        ({
            let drag = slot_drawn(state, slot, Some(stack), true, false, pointer).drag->0;
            let asked = match release_command(inventory, last_seq, drag, hovered, outside) {
                Some(SlotCommand::InventoryMove { quantity, .. }) => quantity,
                Some(SlotCommand::FurnaceMove { quantity, .. }) => quantity,
                Some(SlotCommand::LootBagMove { quantity, .. }) => quantity,
                Some(SlotCommand::InventoryDrop { quantity, .. }) => quantity,
                None => Some(drag.quantity),
            };
            &&& asked is Some
            &&& pointer.primary_pressed ==> asked == Some(stack.quantity)
            &&& !pointer.primary_pressed ==> 2 * asked->0 == stack.quantity || 2 * asked->0
                == stack.quantity + 1
        }),
{
    press_takes_the_stack_up(state, slot, stack, false, pointer);
}

/// A move asks for the two slots it was made between and for nothing else, under the
/// command of the container that takes part: the bag's where there is a bag, the
/// inventory's where both slots are the player's, and the furnace's otherwise.
pub proof fn move_asks_for_its_own_slots(
    inventory: Option<&PlayerInventoryState>,
    last_seq: u32,
    source: UnifiedSlotRef,
    target: UnifiedSlotRef,
    wanted: Option<u16>,
)
    ensures
        ({
            let command = move_command(inventory, last_seq, source, target, wanted);
            &&& asks_to_move(command, source, target, wanted)
            &&& command is LootBagMove <==> source is Bag || target is Bag
            &&& command is InventoryMove <==> source is Player && target is Player
            &&& command is FurnaceMove <==> !(source is Bag) && !(target is Bag) && (source
                is Furnace || target is Furnace)
        }),
{
}

/// Sequence numbers follow one another and pass over zero, so no two predicted actions
/// that come one behind the other share one.
pub proof fn sequence_numbers_pass_over_zero(last: u32)
    ensures
        next_seq(last) != 0,
        last < u32::MAX ==> next_seq(last) == last + 1,
        next_seq(u32::MAX) == 1,
        last != 0 ==> next_seq(last) != last,
{
}

/// A quick equip takes exactly the worn pieces of the bag and the actionbar, each to
/// the slot of the body it belongs on; what is worn already stays.
pub proof fn quick_equip_takes_worn_pieces(
    items: Seq<ItemDefinition>,
    carried: PlayerInventoryState,
    pending: Option<UnifiedSlotRef>,
    from: ItemContainerSlot,
    to: ItemContainerSlot,
)
    ensures
        quick_equip_target(items, Some(&carried), pending) == Some((from, to)) <==> {
            let stack = carried.stack_in(from);
            let definition = item_of(items, stack->0.item_id@);
            &&& pending == Some(UnifiedSlotRef::Player(from))
            &&& from.container == ItemContainer::Inventory || from.container
                == ItemContainer::Actionbar
            &&& stack is Some
            &&& definition is Some
            &&& definition->0.armor is Some
            &&& to.container == ItemContainer::Equipment
            &&& to.slot == definition->0.armor->0.slot.position()
        },
        quick_equip_target(items, None, pending) is None,
{
}

/// The pointer is outside where there is none, and otherwise wherever it touches no
/// surface; one touched surface is enough to be inside.
pub proof fn one_surface_is_enough(hits: SurfaceHits)
    requires
        hits.pointer,
    ensures
        hits.inventory ==> !outside_surfaces(hits),
        hits.actionbar ==> !outside_surfaces(hits),
        hits.furnace ==> !outside_surfaces(hits),
        hits.loot_bag ==> !outside_surfaces(hits),
        hits.equipment ==> !outside_surfaces(hits),
        !hits.inventory && !hits.actionbar && !hits.furnace && !hits.loot_bag && !hits.equipment
            ==> outside_surfaces(hits),
{
}

/// A move is predicted exactly from a filled slot of a known inventory into an empty
/// one, and a drop wherever the inventory is known.
pub proof fn only_plain_moves_are_predicted(
    carried: PlayerInventoryState,
    from: ItemContainerSlot,
    to: ItemContainerSlot,
)
    ensures
        move_is_predicted(Some(&carried), from, to) <==> carried.stack_in(from) is Some
            && carried.stack_in(to) is None,
        !move_is_predicted(None, from, to),
        drop_is_predicted(Some(&carried)),
        !drop_is_predicted(None),
        forall|last: u32| #[trigger] seq_if(false, last) == 0,
        forall|last: u32| #[trigger] seq_if(true, last) == next_seq(last),
{
}

/// What is predicted stands behind what was predicted before, with the slots and the
/// quantity of the move and the number that it was given.
pub proof fn predictions_stand_behind_the_earlier(
    before: PredictionState,
    after: PredictionState,
    carried: PlayerInventoryState,
    from: ItemContainerSlot,
    to: ItemContainerSlot,
    quantity: Option<u16>,
)
    requires
        prediction_after_move(
            before,
            after,
            Some(&carried),
            UnifiedSlotRef::Player(from),
            UnifiedSlotRef::Player(to),
            quantity,
        ),
    ensures
        before.pending@.is_prefix_of(after.pending@),
        carried.stack_in(from) is Some && carried.stack_in(to) is None ==> after.pending@.len()
            == before.pending@.len() + 1 && after.pending@.last() == (PredictedAction::Move {
            seq: after.last_seq,
            from,
            to,
            quantity,
        }),
        carried.stack_in(from) is None || carried.stack_in(to) is Some ==> after == before,
{
}

/// Each surface with slots keeps a drag alive by itself; quick equips are handled on the
/// bag alone, and a drag ends with its own button and no other.
pub proof fn drags_live_on_any_surface(menu: MenuState, released: ButtonReleases)
    ensures
        menu.inventory_open ==> slots_open(menu),
        menu.furnace_open ==> slots_open(menu),
        menu.loot_bag_open ==> slots_open(menu),
        !menu.inventory_open && !menu.furnace_open && !menu.loot_bag_open ==> !slots_open(menu),
        equips(menu) ==> menu.inventory_open && !menu.furnace_open && !menu.loot_bag_open,
        menu.inventory_open && !menu.furnace_open && !menu.loot_bag_open ==> equips(menu),
        let_go(InventoryDragButton::Primary, released) == released.primary,
        let_go(InventoryDragButton::Secondary, released) == released.secondary,
{
}

} // verus!
