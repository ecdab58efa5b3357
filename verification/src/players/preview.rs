//! The character preview beside the worn slots.
use vstd::prelude::*;
use crate::inventory::slot::InventoryUiState;
use crate::items::{
    HeldMesh, ItemDefinition, PlayerInventoryState, first_row_of_the_id_is_found, item_definition,
    item_of, slots_are_read_from_their_container,
};
use crate::menu::{MenuState, Screen};
use crate::players::rig::{RemoteEquipment, same_held};

verus! {

/// The preview is seen: in the game, on the bag and not on the grants, and with no
/// pause menu over it.
pub open spec fn preview_seen(menu: MenuState, admin_tab: bool) -> bool {
    menu.screen == Screen::InGame && menu.inventory_open && !admin_tab && !menu.pause_open
}

/// Whether the preview is seen.
pub fn preview_visible(menu: &MenuState, inventory_ui: &InventoryUiState) -> (r: bool)
    ensures
        r == preview_seen(*menu, inventory_ui.admin_tab),
{
    menu.screen == Screen::InGame && menu.inventory_open && !inventory_ui.admin_tab
        && !menu.pause_open
}

/// What the player holds in hand as others see it: the item of the active slot if
/// it can be equipped.
pub open spec fn held_in_hand(
    items: Seq<ItemDefinition>,
    inventory: Option<&PlayerInventoryState>,
) -> Option<HeldMesh> {
    match inventory {
        Some(carried) => match carried.active_stack() {
            Some(stack) => match item_of(items, stack.item_id@) {
                Some(definition) => if definition.equipable {
                    Some(definition.held_mesh)
                } else {
                    None
                },
                None => None,
            },
            None => None,
        },
        None => None,
    }
}

/// Finds what the player holds in hand.
pub fn held_mesh_of(items: &Vec<ItemDefinition>, inventory: Option<&PlayerInventoryState>) -> (r:
    Option<HeldMesh>)
    ensures
        r == held_in_hand(items@, inventory),
{
    match inventory {
        Some(carried) => match carried.active_actionbar_stack() {
            Some(stack) => match item_definition(items, stack.item_id.as_str()) {
                Some(definition) => if definition.equipable {
                    Some(definition.held_mesh)
                } else {
                    None
                },
                None => None,
            },
            None => None,
        },
        None => None,
    }
}

/// What the preview shows, and the entities that show it.
pub struct PaperdollPreview {
    pub camera_active: bool,
    pub last_equipment: RemoteEquipment,
    pub armor_layers: Vec<u64>,
    pub last_held: Option<HeldMesh>,
    pub held_layers: Vec<u64>,
    /// Whether the right arm carries something.
    pub carry_posed: bool,
}

/// What a frame of the preview asks for.
pub struct PreviewPlan {
    /// Whether the camera is switched, and to what.
    pub camera: Option<bool>,
    /// Whether the figure is drawn, and sways.
    pub sway: bool,
    /// Layers that go.
    pub despawn: Vec<u64>,
    /// Whether the armor changes, and the meshes of the new one.
    pub wear: Option<Vec<u16>>,
    /// Whether the hand changes, and what it holds then.
    pub hold: Option<Option<HeldMesh>>,
    /// Whether the right arm is posed anew, and whether it carries then.
    pub carry: Option<bool>,
}

/// The carrying arm agrees with the hand.
pub open spec fn posed(preview: PaperdollPreview) -> bool {
    preview.carry_posed == (preview.last_held is Some)
}

/// Works out what a frame of the preview asks for. A preview that is not seen
/// costs nothing but the switch of its camera.
pub fn sync_preview(
    preview: &mut PaperdollPreview,
    menu: &MenuState,
    inventory_ui: &InventoryUiState,
    equipment: RemoteEquipment,
    held: Option<HeldMesh>,
) -> (r: PreviewPlan)
    ensures
        ({
            let seen = preview_seen(*menu, inventory_ui.admin_tab);
            let rewear = seen && equipment != old(preview).last_equipment;
            let rehold = seen && held != old(preview).last_held;
            let repose = rehold && (held is Some) != old(preview).carry_posed;
            &&& r.camera == if seen != old(preview).camera_active {
                Some(seen)
            } else {
                None
            }
            &&& r.sway == seen
            &&& r.despawn@ == (if rewear {
                old(preview).armor_layers@
            } else {
                Seq::empty()
            }) + (if rehold {
                old(preview).held_layers@
            } else {
                Seq::empty()
            })
            &&& r.wear is Some == rewear
            &&& rewear ==> r.wear->0@ == equipment.meshes()
            &&& r.hold == if rehold {
                Some(held)
            } else {
                None
            }
            &&& r.carry == if repose {
                Some(held is Some)
            } else {
                None
            }
            &&& final(preview).camera_active == seen
            &&& final(preview).last_equipment == if seen {
                equipment
            } else {
                old(preview).last_equipment
            }
            &&& final(preview).last_held == if seen {
                held
            } else {
                old(preview).last_held
            }
            &&& final(preview).armor_layers@ == if rewear {
                Seq::empty()
            } else {
                old(preview).armor_layers@
            }
            &&& final(preview).held_layers@ == if rehold {
                Seq::empty()
            } else {
                old(preview).held_layers@
            }
            &&& final(preview).carry_posed == if rehold {
                held is Some
            } else {
                old(preview).carry_posed
            }
        }),
        posed(*old(preview)) ==> posed(*final(preview)),
        r.despawn@.len() + final(preview).held_layers@.len() + final(preview).armor_layers@.len()
            == old(preview).held_layers@.len() + old(preview).armor_layers@.len(),
        !r.sway ==> r.despawn@.len() == 0 && r.wear is None && r.hold is None && r.carry is None
            && final(preview).last_held == old(preview).last_held,
        !r.sway ==> final(preview).last_equipment == old(preview).last_equipment,
        r.sway ==> final(preview).last_held == held && final(preview).last_equipment == equipment,
        r.carry is Some ==> r.carry == Some(held is Some) && final(preview).carry_posed == (held
            is Some),
        r.sway ==> menu.screen == Screen::InGame && menu.inventory_open && !menu.pause_open
            && !inventory_ui.admin_tab,
{
    let seen = preview_visible(menu, inventory_ui);
    let camera: Option<bool> = if seen != preview.camera_active {
        Some(seen)
    } else {
        None
    };
    preview.camera_active = seen;
    let mut despawn: Vec<u64> = Vec::new();
    let mut wear: Option<Vec<u16>> = None;
    let mut hold: Option<Option<HeldMesh>> = None;
    let mut carry: Option<bool> = None;
    let ghost rewear = seen && equipment != old(preview).last_equipment;
    let ghost rehold = seen && held != old(preview).last_held;
    if seen {
        if !equipment.same(&preview.last_equipment) {
            preview.last_equipment = equipment;
            despawn.append(&mut preview.armor_layers);
            wear = Some(equipment.worn());
        }
        if !same_held(held, preview.last_held) {
            preview.last_held = held;
            despawn.append(&mut preview.held_layers);
            hold = Some(held);
            let carries: bool = held.is_some();
            if carries != preview.carry_posed {
                preview.carry_posed = carries;
                carry = Some(carries);
            }
        }
    }
    proof {
        assert(despawn@ =~= (if rewear {
            old(preview).armor_layers@
        } else {
            Seq::empty()
        }) + (if rehold {
            old(preview).held_layers@
        } else {
            Seq::empty()
        }));
    }
    PreviewPlan { camera, sway: seen, despawn, wear, hold, carry }
}

/// The preview is seen in the game, on the open bag, without the grants and the pause.
pub proof fn preview_is_seen_on_the_bag(menu: MenuState, admin_tab: bool)
    ensures
        preview_seen(menu, admin_tab) ==> menu.screen == Screen::InGame && menu.inventory_open
            && !admin_tab && !menu.pause_open,
        menu.screen == Screen::InGame && menu.inventory_open && !menu.pause_open ==> preview_seen(
            menu,
            admin_tab,
        ) == !admin_tab,
{
}

/// In hand others see the item of the active slot exactly where it can be equipped.
pub proof fn equipped_items_are_seen_in_hand(
    items: Seq<ItemDefinition>,
    carried: PlayerInventoryState,
    k: int,
)
    requires
        carried.active_actionbar_slot < carried.actionbar_slots@.len(),
        carried.actionbar_slots@[carried.active_actionbar_slot as int] is Some,
        0 <= k < items.len(),
        items[k].id@ == carried.actionbar_slots@[carried.active_actionbar_slot as int]->0.item_id@,
        forall|i: int|
            0 <= i < k ==> (#[trigger] items[i]).id@
                != carried.actionbar_slots@[carried.active_actionbar_slot as int]->0.item_id@,
    ensures
        items[k].equipable ==> held_in_hand(items, Some(&carried)) == Some(items[k].held_mesh),
        !items[k].equipable ==> held_in_hand(items, Some(&carried)) is None,
        held_in_hand(items, None) is None,
{
    let stack = carried.actionbar_slots@[carried.active_actionbar_slot as int]->0;
    first_row_of_the_id_is_found(items, stack.item_id@, k);
    slots_are_read_from_their_container(carried, carried.active_actionbar_slot);
}

} // verus!
