//! The panel that holds the bag, the crafting browser and the item grants.
use vstd::prelude::*;
use crate::inventory::paperdoll::{PAPERDOLL_COLUMN_GAP, PAPERDOLL_COLUMN_WIDTH};
use crate::inventory::slot::{InventoryUiState, SLOT_SIZE};
use crate::items::{PlayerInventoryState, occupied, occupied_slots};
use crate::menu::MenuState;
use crate::text::{decimal, digits, same_text};

verus! {

/// The width of the panel, in pixels.
pub const PANEL_WIDTH: u32 = 1018;

/// The slots of the bag.
pub const INVENTORY_SLOT_COUNT: usize = 60;

/// The columns of the bag grid.
pub const INVENTORY_COLUMNS: usize = 12;

/// The rows of the grid that are drawn, fillers included.
pub const INVENTORY_DISPLAY_ROWS: usize = 7;

/// The gap between two slots, in pixels.
pub const SLOT_GAP: u32 = 6;

/// The margins of the panel frame together, in pixels.
pub const FRAME_MARGINS: u32 = 48;

/// The tabs of the panel.
#[derive(Clone, Copy, Debug, PartialEq, Eq, Structural)]
pub enum Tab {
    Inventory,
    Crafting,
    Admin,
}

impl Tab {
    pub open spec fn label_text(self) -> Seq<char> {
        match self {
            Tab::Inventory => "Inventory"@,
            Tab::Crafting => "Crafting"@,
            Tab::Admin => "Admin"@,
        }
    }

    /// The name of a tab.
    pub fn label(self) -> (r: String)
        ensures
            r@ == self.label_text(),
    {
        match self {
            Tab::Inventory => "Inventory".to_owned(),
            Tab::Crafting => "Crafting".to_owned(),
            Tab::Admin => "Admin".to_owned(),
        }
    }
}

/// The tab that is up: the grants are a view of the open bag, and the bag comes
/// before the crafting browser.
pub open spec fn tab_of(menu: MenuState, admin_tab: bool) -> Option<Tab> {
    if menu.inventory_open {
        Some(
            if admin_tab {
                Tab::Admin
            } else {
                Tab::Inventory
            },
        )
    } else if menu.crafting_open {
        Some(Tab::Crafting)
    } else {
        None
    }
}

/// The tab that is up, if the panel is.
pub fn active_tab(menu: &MenuState, inventory_ui: &InventoryUiState) -> (r: Option<Tab>)
    ensures
        r == tab_of(*menu, inventory_ui.admin_tab),
{
    if menu.inventory_open {
        Some(
            if inventory_ui.admin_tab {
                Tab::Admin
            } else {
                Tab::Inventory
            },
        )
    } else if menu.crafting_open {
        Some(Tab::Crafting)
    } else {
        None
    }
}

/// Goes to a tab without closing the panel. Tells whether the crafting browser
/// starts over, which it does when it is gone to.
pub fn select_tab(menu: &mut MenuState, inventory_ui: &mut InventoryUiState, tab: Tab) -> (r: bool)
    ensures
        *final(menu) == (MenuState {
            inventory_open: tab != Tab::Crafting,
            crafting_open: tab == Tab::Crafting,
            ..*old(menu)
        }),
        *final(inventory_ui) == (InventoryUiState {
            admin_tab: tab == Tab::Admin,
            ..*old(inventory_ui)
        }),
        r == (tab == Tab::Crafting),
{
    match tab {
        Tab::Inventory => {
            menu.inventory_open = true;
            menu.crafting_open = false;
            inventory_ui.admin_tab = false;
            false
        },
        Tab::Crafting => {
            menu.inventory_open = false;
            menu.crafting_open = true;
            inventory_ui.admin_tab = false;
            true
        },
        Tab::Admin => {
            menu.inventory_open = true;
            menu.crafting_open = false;
            inventory_ui.admin_tab = true;
            false
        },
    }
}

/// Going to a tab brings that tab up, and the bag and the crafting browser are
/// never open together.
pub proof fn selected_tab_is_the_active_one(menu: MenuState, tab: Tab)
    ensures
        ({
            let after = MenuState {
                inventory_open: tab != Tab::Crafting,
                crafting_open: tab == Tab::Crafting,
                ..menu
            };
            &&& tab_of(after, tab == Tab::Admin) == Some(tab)
            &&& !(after.inventory_open && after.crafting_open)
        }),
{
}

/// The tabs on offer: the grants are for admins only.
pub fn offered_tabs(is_admin: bool) -> (r: Vec<Tab>)
    ensures
        r@ == if is_admin {
            seq![Tab::Inventory, Tab::Crafting, Tab::Admin]
        } else {
            seq![Tab::Inventory, Tab::Crafting]
        },
{
    let mut tabs: Vec<Tab> = Vec::new();
    tabs.push(Tab::Inventory);
    tabs.push(Tab::Crafting);
    if is_admin {
        tabs.push(Tab::Admin);
    }
    proof {
        assert(is_admin ==> tabs@ =~= seq![Tab::Inventory, Tab::Crafting, Tab::Admin]);
        assert(!is_admin ==> tabs@ =~= seq![Tab::Inventory, Tab::Crafting]);
    }
    tabs
}

/// How the hotbar is drawn.
#[derive(Clone, Copy, Debug, PartialEq, Eq, Structural)]
pub struct HotbarPlan {
    /// Whether its slots take input.
    pub interactive: bool,
    /// Whether shift hands a stack over to an open furnace.
    pub shift_transfer: bool,
}

/// What a frame of the panel does.
#[derive(Clone, Copy, Debug, PartialEq, Eq)]
pub struct PanelPlan {
    /// The tab that is up.
    pub tab: Option<Tab>,
    /// The tab that is drawn; none while the game is paused.
    pub drawn: Option<Tab>,
    /// Whether the panel counts as a surface to drop stacks on.
    pub drag_surface: bool,
    /// Whether a text field that has the focus loses it.
    pub stop_text_input: bool,
    /// How the hotbar is drawn, and whether the world is hinted at.
    pub hotbar: Option<HotbarPlan>,
    /// Whether an item surface is up, so that drops and moves are heard.
    pub item_ui_open: bool,
}

/// The view of the grants that counts in a frame.
pub open spec fn admin_view(state: InventoryUiState, is_admin: bool) -> bool {
    state.admin_tab && is_admin
}

/// Plans a frame of the panel. Players who are no admins never see the grants.
/// Closing the panel lets go of what is dragged and leaves the grants, and
/// closing it or leaving the crafting browser takes the focus from text fields.
pub fn panel_frame(
    menu: &MenuState,
    inventory_ui: &mut InventoryUiState,
    is_admin: bool,
    show_hud: bool,
) -> (r: PanelPlan)
    ensures
        ({
            let before = *old(inventory_ui);
            let tab = tab_of(*menu, admin_view(before, is_admin));
            let leaving_panel = before.was_open && tab is None;
            let leaving_crafting = before.was_crafting && tab != Some(Tab::Crafting);
            &&& r.tab == tab
            &&& r.drawn == if menu.pause_open {
                None
            } else {
                tab
            }
            &&& r.drag_surface == (tab == Some(Tab::Inventory) && !menu.pause_open)
            &&& r.stop_text_input == (leaving_panel || leaving_crafting)
            &&& r.hotbar == if !menu.pause_open && show_hud {
                Some(
                    HotbarPlan {
                        interactive: tab == Some(Tab::Inventory),
                        shift_transfer: menu.furnace_open,
                    },
                )
            } else {
                None
            }
            &&& r.item_ui_open == (menu.inventory_open || menu.crafting_open
                || menu.furnace_open || menu.loot_bag_open)
            &&& *final(inventory_ui) == (InventoryUiState {
                drag: if leaving_panel {
                    None
                } else {
                    before.drag
                },
                admin_tab: admin_view(before, is_admin) && !leaving_panel,
                was_open: tab is Some,
                was_crafting: tab == Some(Tab::Crafting),
                ..before
            })
        }),
        r.tab is Some <==> menu.inventory_open || menu.crafting_open,
        r.tab == Some(Tab::Crafting) <==> menu.crafting_open && !menu.inventory_open,
        r.tab == Some(Tab::Admin) ==> is_admin && old(inventory_ui).admin_tab,
        r.drawn is Some ==> r.drawn == r.tab,
        r.drawn is Some <==> r.tab is Some && !menu.pause_open,
        r.drag_surface <==> r.drawn == Some(Tab::Inventory),
        r.hotbar is Some <==> show_hud && !menu.pause_open,
        r.hotbar matches Some(plan) ==> (plan.interactive <==> r.tab == Some(Tab::Inventory))
            && plan.shift_transfer == menu.furnace_open,
        final(inventory_ui).drag != old(inventory_ui).drag ==> final(inventory_ui).drag is None
            && r.tab is None && old(inventory_ui).was_open,
        r.tab is None && old(inventory_ui).was_open ==> final(inventory_ui).drag is None
            && r.stop_text_input,
        final(inventory_ui).admin_tab ==> is_admin && old(inventory_ui).admin_tab,
        r.stop_text_input ==> old(inventory_ui).was_open || old(inventory_ui).was_crafting,
{
    if !is_admin {
        inventory_ui.admin_tab = false;
    }
    let tab = active_tab(menu, inventory_ui);
    let (on_inventory, on_crafting): (bool, bool) = match tab {
        Some(Tab::Inventory) => (true, false),
        Some(Tab::Crafting) => (false, true),
        _ => (false, false),
    };
    let leaving_panel = inventory_ui.was_open && tab.is_none();
    let leaving_crafting = inventory_ui.was_crafting && !on_crafting;
    if leaving_panel {
        inventory_ui.cancel_drag();
        inventory_ui.admin_tab = false;
    }
    inventory_ui.was_open = tab.is_some();
    inventory_ui.was_crafting = on_crafting;
    PanelPlan {
        tab,
        drawn: if menu.pause_open {
            None
        } else {
            tab
        },
        drag_surface: on_inventory && !menu.pause_open,
        stop_text_input: leaving_panel || leaving_crafting,
        hotbar: if !menu.pause_open && show_hud {
            Some(HotbarPlan { interactive: on_inventory, shift_transfer: menu.furnace_open })
        } else {
            None
        },
        item_ui_open: menu.inventory_open || menu.crafting_open || menu.furnace_open
            || menu.loot_bag_open,
    }
}

/// A press on the drawn panel.
#[derive(Clone, Copy, Debug, PartialEq, Eq)]
pub struct PanelPress {
    pub backdrop: bool,
    pub tab: Option<Tab>,
}

/// Handles the presses on the drawn panel: the backdrop closes the panel unless
/// something is dragged, and another tab is gone to. Tells whether the crafting
/// browser starts over.
pub fn panel_press(
    menu: &mut MenuState,
    inventory_ui: &mut InventoryUiState,
    active: Tab,
    press: PanelPress,
) -> (r: bool)
    ensures
        ({
            let closes = press.backdrop && old(inventory_ui).drag is None;
            let goes = press.tab matches Some(tab) && tab != active;
            &&& r == (goes && press.tab == Some(Tab::Crafting))
            &&& *final(menu) == (MenuState {
                inventory_open: if goes {
                    press.tab != Some(Tab::Crafting)
                } else {
                    old(menu).inventory_open && !closes
                },
                crafting_open: if goes {
                    press.tab == Some(Tab::Crafting)
                } else {
                    old(menu).crafting_open && !closes
                },
                ..*old(menu)
            })
            &&& *final(inventory_ui) == (InventoryUiState {
                admin_tab: if goes {
                    press.tab == Some(Tab::Admin)
                } else {
                    old(inventory_ui).admin_tab
                },
                ..*old(inventory_ui)
            })
        }),
        press.tab matches Some(tab) ==> (tab != active ==> tab_of(
            *final(menu),
            final(inventory_ui).admin_tab,
        ) == Some(tab)),
        press.tab is None && press.backdrop && old(inventory_ui).drag is None ==> tab_of(
            *final(menu),
            final(inventory_ui).admin_tab,
        ) is None,
        press.tab is None && (!press.backdrop || old(inventory_ui).drag is Some) ==> *final(menu)
            == *old(menu),
        final(inventory_ui).drag == old(inventory_ui).drag,
{
    if press.backdrop && inventory_ui.drag.is_none() {
        close_panel(menu);
    }
    match press.tab {
        Some(tab) => if tab != active {
            select_tab(menu, inventory_ui, tab)
        } else {
            false
        },
        None => false,
    }
}

/// Closes the panel, whichever tab is up.
fn close_panel(menu: &mut MenuState)
    ensures
        *final(menu) == (MenuState {
            inventory_open: false,
            crafting_open: false,
            ..*old(menu)
        }),
{
    menu.inventory_open = false;
    menu.crafting_open = false;
}

/// The bag slot at a place of the grid; places behind the last slot are fillers.
pub fn grid_slot(row: usize, column: usize) -> (r: Option<usize>)
    requires
        row < INVENTORY_DISPLAY_ROWS,
        column < INVENTORY_COLUMNS,
    ensures
        r == if row * INVENTORY_COLUMNS + column < INVENTORY_SLOT_COUNT {
            Some((row * INVENTORY_COLUMNS + column) as usize)
        } else {
            None
        },
{
    let index: usize = row * INVENTORY_COLUMNS + column;
    if index < INVENTORY_SLOT_COUNT {
        Some(index)
    } else {
        None
    }
}

/// Every bag slot has its place in the grid.
pub proof fn every_slot_has_a_place(index: usize)
    requires
        index < INVENTORY_SLOT_COUNT,
    ensures
        ({
            let row = index as int / INVENTORY_COLUMNS as int;
            let column = index as int % INVENTORY_COLUMNS as int;
            &&& 0 <= row < INVENTORY_DISPLAY_ROWS
            &&& 0 <= column < INVENTORY_COLUMNS
            &&& row * INVENTORY_COLUMNS + column == index
        }),
{
}

/// The panel is as wide as the worn column, the gap, the bag grid and the frame
/// margins together.
pub proof fn panel_fits_its_content()
    ensures
        PANEL_WIDTH == PAPERDOLL_COLUMN_WIDTH + PAPERDOLL_COLUMN_GAP + INVENTORY_COLUMNS
            * SLOT_SIZE + (INVENTORY_COLUMNS - 1) * SLOT_GAP + FRAME_MARGINS,
{
}

/// The line over the bag that tells how full it is.
pub fn slots_used_text(inventory: &PlayerInventoryState) -> (r: String)
    ensures
        r@ == digits(occupied(inventory.inventory_slots@)) + " / "@ + digits(
            INVENTORY_SLOT_COUNT as nat,
        ) + " slots used"@,
{
    let used = decimal(occupied_slots(&inventory.inventory_slots) as u64);
    let total = decimal(INVENTORY_SLOT_COUNT as u64);
    let mut text = used;
    text.append(" / ");
    text.append(total.as_str());
    text.append(" slots used");
    text
}

/// One slot of the hotbar.
pub struct HotbarSlot {
    pub label: String,
    pub active: bool,
}

/// What a slot of the hotbar shows: its number, counted from one, and whether
/// it is the one in hand.
pub fn hotbar_slot(inventory: &PlayerInventoryState, index: usize) -> (r: HotbarSlot)
    requires
        index < usize::MAX,
    ensures
        r.label@ == digits((index + 1) as nat),
        r.active == (index == inventory.active_actionbar_slot),
{
    HotbarSlot {
        label: decimal((index + 1) as u64),
        active: index == inventory.active_actionbar_slot,
    }
}

/// The slots of the hotbar from left to right; nothing is drawn before the player's
/// things are known.
pub fn hotbar_slots(inventory: Option<&PlayerInventoryState>, count: usize) -> (r: Option<
    Vec<HotbarSlot>,
>)
    ensures
        r is Some == inventory is Some,
        (inventory matches Some(carried) && r matches Some(slots)) ==> {
            let slots = r->0;
            &&& slots@.len() == count
            &&& forall|i: int|
                0 <= i < count ==> {
                    &&& (#[trigger] slots@[i]).label@ == digits((i + 1) as nat)
                    &&& slots@[i].active == (i == inventory->0.active_actionbar_slot)
                }
        },
{
    match inventory {
        Some(carried) => {
            let mut slots: Vec<HotbarSlot> = Vec::new();
            let mut index: usize = 0;
            while index < count
                invariant
                    index <= count,
                    slots@.len() == index,
                    forall|i: int|
                        0 <= i < index ==> {
                            &&& (#[trigger] slots@[i]).label@ == digits((i + 1) as nat)
                            &&& slots@[i].active == (i == carried.active_actionbar_slot)
                        },
                decreases count - index,
            {
                slots.push(hotbar_slot(carried, index));
                index = index + 1;
            }
            Some(slots)
        },
        None => None,
    }
}

/// The opacity of the hotbar: it recedes while it takes no input.
pub fn hotbar_alpha(interactive: bool) -> (r: u8)
    ensures
        r == if interactive {
            236int
        } else {
            176
        },
{
    if interactive {
        236
    } else {
        176
    }
}

/// Whether the item in hand is the given one.
pub fn holds_item(inventory: Option<&PlayerInventoryState>, item_id: &str) -> (r: bool)
    ensures
        r == (inventory matches Some(carried) && carried.active_stack() matches Some(stack)
            && stack.item_id@ == item_id@),
{
    match inventory {
        Some(carried) => match carried.active_actionbar_stack() {
            Some(stack) => same_text(stack.item_id.as_str(), item_id),
            None => false,
        },
        None => false,
    }
}

/// The open bag hides the crafting browser, the grants are shown over the open bag and
/// to admins alone, and without either surface no tab is up.
pub proof fn tabs_follow_the_open_surfaces(menu: MenuState, state: InventoryUiState, is_admin: bool)
    ensures
        ({
            let tab = tab_of(menu, admin_view(state, is_admin));
            &&& tab == Some(Tab::Admin) <==> menu.inventory_open && state.admin_tab && is_admin
            &&& tab == Some(Tab::Inventory) <==> menu.inventory_open && !(state.admin_tab
                && is_admin)
            &&& tab == Some(Tab::Crafting) <==> !menu.inventory_open && menu.crafting_open
            &&& tab is None <==> !menu.inventory_open && !menu.crafting_open
        }),
{
}

/// No two tabs read alike.
pub proof fn tab_labels_differ(a: Tab, b: Tab)
    requires
        a.label_text() == b.label_text(),
    ensures
        a == b,
        Tab::Inventory.label_text() == "Inventory"@,
        Tab::Crafting.label_text() == "Crafting"@,
        Tab::Admin.label_text() == "Admin"@,
{
    reveal_strlit("Inventory");
    reveal_strlit("Crafting");
    reveal_strlit("Admin");
    assert("Inventory"@[0] == 'I' && "Crafting"@[0] == 'C' && "Admin"@[0] == 'A');
}

} // verus!
