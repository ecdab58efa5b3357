//! The world map: when it opens and closes, and what it asks the server for.
use vstd::prelude::*;
use crate::menu::{MenuState, Screen};
use crate::text::concat2;

verus! {

/// What is known in a frame.
#[derive(Clone, Copy, Debug, PartialEq, Eq)]
pub struct MapInputs {
    pub connected: bool,
    /// Whether the window has the focus; unknown without a window.
    pub focused: Option<bool>,
    pub key_pressed: bool,
    /// Whether a prompt or a confirmation owns the keyboard.
    pub dialog_open: bool,
    /// Whether the kept map is too old, and none is on its way.
    pub stale: bool,
}

/// What a frame asks the server for.
#[derive(Clone, Copy, Debug, PartialEq, Eq)]
pub struct MapRequests {
    /// The marker to remove.
    pub remove_marker: Option<u64>,
    pub request_map: bool,
}

/// A panel is up that the map never shares the screen with.
pub open spec fn blocks_map(menu: MenuState) -> bool {
    menu.pause_open || menu.inventory_open || menu.crafting_open || menu.furnace_open
        || menu.loot_bag_open || menu.chat_open || menu.death_splash is Some
}

/// Whether a panel is up that the map never shares the screen with.
pub fn blocking_modal(menu: &MenuState) -> (r: bool)
    ensures
        r == blocks_map(*menu),
{
    menu.pause_open || menu.inventory_open || menu.crafting_open || menu.furnace_open
        || menu.loot_bag_open || menu.chat_open || menu.death_splash.is_some()
}

/// The key counts: the window has the focus, no dialog owns the keyboard, and no
/// panel is in the way.
pub open spec fn toggles(menu: MenuState, inputs: MapInputs) -> bool {
    &&& inputs.key_pressed
    &&& inputs.focused != Some(false)
    &&& !inputs.dialog_open
    &&& !blocks_map(menu)
}

/// Whether the map is up after a frame in the game: a panel closes it, and the key
/// opens and closes it.
pub open spec fn open_after(menu: MenuState, inputs: MapInputs) -> bool {
    if menu.world_map_open && blocks_map(menu) {
        false
    } else if toggles(menu, inputs) {
        !menu.world_map_open
    } else {
        menu.world_map_open
    }
}

/// Runs a frame of the map. `dirty` tells whether its view was panned, zoomed or
/// opened at a marker; a map that is closed forgets that. A confirmed deletion is
/// handed on once. Outside the game the map is closed and nothing is asked for.
pub fn world_map_input(menu: &mut MenuState, dirty: &mut bool, inputs: MapInputs) -> (r:
    MapRequests)
    ensures
        if old(menu).screen != Screen::InGame {
            &&& r.remove_marker is None
            &&& !r.request_map
            &&& !*final(dirty)
            &&& *final(menu) == (MenuState { world_map_open: false, ..*old(menu) })
        } else {
            let open = open_after(*old(menu), inputs);
            &&& r.remove_marker == if inputs.connected {
                old(menu).world_map_delete_pending
            } else {
                None
            }
            &&& r.request_map == (open && !old(menu).world_map_open && inputs.stale
                && inputs.connected)
            &&& *final(dirty) == (*old(dirty) && open && old(menu).world_map_open)
            &&& *final(menu) == (MenuState {
                world_map_open: open,
                world_map_delete_pending: None,
                ..*old(menu)
            })
        },
        r.request_map ==> final(menu).world_map_open && !old(menu).world_map_open
            && inputs.stale && inputs.connected && inputs.key_pressed,
        r.remove_marker is Some ==> inputs.connected && r.remove_marker == old(
            menu,
        ).world_map_delete_pending,
        final(menu).world_map_open ==> old(menu).screen == Screen::InGame && !(
        old(menu).pause_open || old(menu).inventory_open || old(menu).crafting_open || old(
            menu,
        ).furnace_open || old(menu).loot_bag_open || old(menu).chat_open || old(
            menu,
        ).death_splash is Some),
        *final(dirty) ==> *old(dirty) && final(menu).world_map_open,
        final(menu).screen == old(menu).screen,
{
    match menu.screen {
        Screen::InGame => {},
        _ => {
            menu.world_map_open = false;
            *dirty = false;
            return MapRequests { remove_marker: None, request_map: false };
        },
    }
    let pending = menu.world_map_delete_pending.take();
    let remove_marker: Option<u64> = if inputs.connected {
        pending
    } else {
        None
    };
    if !menu.world_map_open {
        *dirty = false;
    }
    let focused: bool = match inputs.focused {
        Some(focused) => focused,
        None => true,
    };
    let blocked = blocking_modal(menu);
    if menu.world_map_open && blocked {
        menu.world_map_open = false;
        *dirty = false;
        return MapRequests { remove_marker, request_map: false };
    }
    if inputs.dialog_open || !(focused && inputs.key_pressed) || blocked {
        return MapRequests { remove_marker, request_map: false };
    }
    menu.world_map_open = !menu.world_map_open;
    if menu.world_map_open {
        MapRequests { remove_marker, request_map: inputs.stale && inputs.connected }
    } else {
        *dirty = false;
        MapRequests { remove_marker, request_map: false }
    }
}

/// What is shown of a deletion that could not be sent.
pub fn delete_failure(error: &str) -> (r: String)
    ensures
        r@ == "couldn't delete marker: "@ + error@,
{
    concat2("couldn't delete marker: ", error)
}

/// Whether the map picture has to be made: the map is up, there is none yet, and
/// the world it shows is known.
pub fn texture_due(menu: &MenuState, has_texture: bool, world_known: bool) -> (r: bool)
    ensures
        r == (menu.world_map_open && !has_texture && world_known),
{
    menu.world_map_open && !has_texture && world_known
}

/// The map is never up behind a panel.
pub proof fn map_never_stays_behind_a_panel(menu: MenuState, inputs: MapInputs)
    ensures
        open_after(menu, inputs) ==> !blocks_map(menu),
{
}

/// Pressing the key twice brings the map back to where it was.
pub proof fn key_toggles_the_map(menu: MenuState, inputs: MapInputs)
    requires
        toggles(menu, inputs),
    ensures
        ({
            let once = MenuState { world_map_open: open_after(menu, inputs), ..menu };
            &&& once.world_map_open == !menu.world_map_open
            &&& open_after(once, inputs) == menu.world_map_open
        }),
{
}

/// Each panel keeps the map away, and without any of them, and without the death screen,
/// nothing does.
pub proof fn every_panel_keeps_the_map_away(menu: MenuState)
    ensures
        menu.pause_open ==> blocks_map(menu),
        menu.inventory_open ==> blocks_map(menu),
        menu.crafting_open ==> blocks_map(menu),
        menu.furnace_open ==> blocks_map(menu),
        menu.loot_bag_open ==> blocks_map(menu),
        menu.chat_open ==> blocks_map(menu),
        menu.death_splash is Some ==> blocks_map(menu),
        !menu.pause_open && !menu.inventory_open && !menu.crafting_open && !menu.furnace_open
            && !menu.loot_bag_open && !menu.chat_open && menu.death_splash is None
            ==> !blocks_map(menu),
{
}

/// The key does nothing in a window without the focus, under a dialog or behind a panel,
/// and without it the map stays as it is.
pub proof fn only_the_key_moves_an_open_way(menu: MenuState, inputs: MapInputs)
    ensures
        toggles(menu, inputs) <==> inputs.key_pressed && !inputs.dialog_open && !blocks_map(menu)
            && (inputs.focused is None || inputs.focused->0),
        !toggles(menu, inputs) && !blocks_map(menu) ==> open_after(menu, inputs)
            == menu.world_map_open,
        !menu.world_map_open && open_after(menu, inputs) ==> toggles(menu, inputs),
{
}

} // verus!
