//! The ammunition count and the charge bar over the hotbar. Shares are in
//! millionths, lengths in thousandths of a pixel.
use vstd::prelude::*;
use crate::color::{Rgba, shade, translucent};
use crate::items::{
    ExplosiveDelivery, ItemDefinition, ItemStack, PlayerInventoryState, carried_amount,
    count_items_in_inventory, first_row_of_the_id_is_found, item_definition, item_of,
    slots_are_read_from_their_container,
};
use crate::text::{decimal, digits};

verus! {

/// What the bar fills with.
#[derive(Clone, Copy, Debug, PartialEq, Eq, Structural)]
pub enum RangedHudFill {
    Draw(u32),
    Reload(u32),
}

/// The count and the bar of what is in hand.
#[derive(Clone, Copy, Debug, PartialEq, Eq)]
pub struct RangedHudView {
    pub ammo: u32,
    pub fill: Option<RangedHudFill>,
}

/// How a ranged weapon is being used.
#[derive(Clone, Copy, Debug, PartialEq, Eq, Structural)]
pub struct RangedDraw {
    pub drawing: bool,
    pub draw_fraction: u32,
    pub reloading: bool,
    pub reload_fraction: u32,
}

/// How far something that is held down has charged, while it is.
#[derive(Clone, Copy, Debug, PartialEq, Eq)]
pub struct HeldCharge {
    pub fraction: Option<u32>,
}

/// The item in hand and its definition.
pub open spec fn in_hand(
    items: Seq<ItemDefinition>,
    inventory: Option<&PlayerInventoryState>,
) -> Option<(ItemStack, ItemDefinition)> {
    match inventory {
        Some(carried) => match carried.active_stack() {
            Some(stack) => match item_of(items, stack.item_id@) {
                Some(definition) => Some((stack, definition)),
                None => None,
            },
            None => None,
        },
        None => None,
    }
}

/// As many as a count can show.
pub open spec fn shown_count(inventory: PlayerInventoryState, id: Seq<char>) -> int {
    if carried_amount(inventory, id) > u32::MAX {
        u32::MAX as int
    } else {
        carried_amount(inventory, id) as int
    }
}

/// Draws up the count and the bar of a ranged weapon in hand: a draw before a
/// reload. Anything else in hand has none.
pub fn ranged_hud_view(
    items: &Vec<ItemDefinition>,
    inventory: Option<&PlayerInventoryState>,
    draw: RangedDraw,
) -> (r: Option<RangedHudView>)
    ensures
        match in_hand(items@, inventory) {
            Some((_, definition)) => match definition.ammo_item {
                Some(ammo) => {
                    &&& r matches Some(view)
                    &&& view.ammo == shown_count(*inventory->0, ammo@)
                    &&& view.fill == if draw.drawing {
                        Some(RangedHudFill::Draw(draw.draw_fraction))
                    } else if draw.reloading {
                        Some(RangedHudFill::Reload(draw.reload_fraction))
                    } else {
                        None
                    }
                },
                None => r is None,
            },
            None => r is None,
        },
        r matches Some(view) ==> {
            let stack = inventory->0.active_stack()->0;
            let weapon = item_of(items@, stack.item_id@)->0;
            let carried = carried_amount(*inventory->0, weapon.ammo_item->0@);
            &&& inventory is Some && inventory->0.active_stack() is Some
            &&& weapon.ammo_item is Some
            &&& carried <= u32::MAX ==> view.ammo == carried
            &&& view.fill is None <==> !draw.drawing && !draw.reloading
            &&& draw.drawing ==> view.fill == Some(RangedHudFill::Draw(draw.draw_fraction))
        },
{
    let carried = match inventory {
        Some(carried) => carried,
        None => {
            return None;
        },
    };
    let stack = match carried.active_actionbar_stack() {
        Some(stack) => stack,
        None => {
            return None;
        },
    };
    let definition = match item_definition(items, stack.item_id.as_str()) {
        Some(definition) => definition,
        None => {
            return None;
        },
    };
    match &definition.ammo_item {
        Some(ammo) => {
            let fill: Option<RangedHudFill> = if draw.drawing {
                Some(RangedHudFill::Draw(draw.draw_fraction))
            } else if draw.reloading {
                Some(RangedHudFill::Reload(draw.reload_fraction))
            } else {
                None
            };
            Some(
                RangedHudView { ammo: count_items_in_inventory(carried, ammo.as_str()), fill },
            )
        },
        None => None,
    }
}

/// Draws up the count and the bar of a thrown explosive that is being wound up.
pub fn throw_hud_view(
    items: &Vec<ItemDefinition>,
    inventory: Option<&PlayerInventoryState>,
    charge: HeldCharge,
) -> (r: Option<RangedHudView>)
    ensures
        match (charge.fraction, in_hand(items@, inventory)) {
            (Some(fraction), Some((stack, definition))) => if definition.explosive == Some(
                ExplosiveDelivery::Thrown,
            ) {
                &&& r matches Some(view)
                &&& view.ammo == shown_count(*inventory->0, stack.item_id@)
                &&& view.fill == Some(RangedHudFill::Draw(fraction))
            } else {
                r is None
            },
            _ => r is None,
        },
        r matches Some(view) ==> {
            let stack = inventory->0.active_stack()->0;
            let carried = carried_amount(*inventory->0, stack.item_id@);
            &&& charge.fraction is Some
            &&& item_of(items@, stack.item_id@)->0.explosive == Some(ExplosiveDelivery::Thrown)
            &&& carried <= u32::MAX ==> view.ammo == carried
        },
{
    let fraction = match charge.fraction {
        Some(fraction) => fraction,
        None => {
            return None;
        },
    };
    let carried = match inventory {
        Some(carried) => carried,
        None => {
            return None;
        },
    };
    let stack = match carried.active_actionbar_stack() {
        Some(stack) => stack,
        None => {
            return None;
        },
    };
    match item_definition(items, stack.item_id.as_str()) {
        Some(definition) => match definition.explosive {
            Some(ExplosiveDelivery::Thrown) => Some(
                RangedHudView {
                    ammo: count_items_in_inventory(carried, stack.item_id.as_str()),
                    fill: Some(RangedHudFill::Draw(fraction)),
                },
            ),
            _ => None,
        },
        None => None,
    }
}

/// Draws up the count and the bar of something that is being used up.
pub fn consume_hud_view(
    items: &Vec<ItemDefinition>,
    inventory: Option<&PlayerInventoryState>,
    charge: HeldCharge,
) -> (r: Option<RangedHudView>)
    ensures
        match (charge.fraction, in_hand(items@, inventory)) {
            (Some(fraction), Some((stack, definition))) => if definition.consumable {
                &&& r matches Some(view)
                &&& view.ammo == shown_count(*inventory->0, stack.item_id@)
                &&& view.fill == Some(RangedHudFill::Draw(fraction))
            } else {
                r is None
            },
            _ => r is None,
        },
        r matches Some(view) ==> {
            let stack = inventory->0.active_stack()->0;
            let carried = carried_amount(*inventory->0, stack.item_id@);
            &&& charge.fraction is Some
            &&& item_of(items@, stack.item_id@)->0.consumable
            &&& carried <= u32::MAX ==> view.ammo == carried
        },
{
    let fraction = match charge.fraction {
        Some(fraction) => fraction,
        None => {
            return None;
        },
    };
    let carried = match inventory {
        Some(carried) => carried,
        None => {
            return None;
        },
    };
    let stack = match carried.active_actionbar_stack() {
        Some(stack) => stack,
        None => {
            return None;
        },
    };
    match item_definition(items, stack.item_id.as_str()) {
        Some(definition) => if definition.consumable {
            Some(
                RangedHudView {
                    ammo: count_items_in_inventory(carried, stack.item_id.as_str()),
                    fill: Some(RangedHudFill::Draw(fraction)),
                },
            )
        } else {
            None
        },
        None => None,
    }
}

/// A box on the screen, in thousandths of a point.
#[derive(Clone, Copy, Debug, PartialEq, Eq, Structural)]
pub struct PixelRect {
    pub left: i64,
    pub top: i64,
    pub right: i64,
    pub bottom: i64,
}

impl PixelRect {
    /// A box within what a screen can hold.
    pub open spec fn on_screen(self) -> bool {
        &&& -0x1_0000_0000 <= self.left <= self.right <= 0x1_0000_0000
        &&& -0x1_0000_0000 <= self.top <= self.bottom <= 0x1_0000_0000
    }
}

/// A share up to all.
pub open spec fn at_most_all(fraction: u32) -> int {
    if fraction > 1_000_000 {
        1_000_000
    } else {
        fraction as int
    }
}

/// The track of the bar, over the hotbar and as wide as it.
pub open spec fn track_of(actionbar: PixelRect) -> PixelRect {
    PixelRect {
        left: actionbar.left,
        top: (actionbar.top - 14_000) as i64,
        right: actionbar.right,
        bottom: (actionbar.top - 6_000) as i64,
    }
}

/// The filled part of a track, from the left.
pub open spec fn filled(track: PixelRect, fraction: u32) -> PixelRect {
    PixelRect {
        right: (track.left + (track.right - track.left) * at_most_all(fraction) / 1_000_000) as i64,
        ..track
    }
}

/// Lays out the bar: its track and the filled part of it.
pub fn ranged_bar_rects(actionbar: PixelRect, fraction: u32) -> (r: (PixelRect, PixelRect))
    requires
        actionbar.on_screen(),
    ensures
        r.0 == track_of(actionbar),
        r.1 == filled(track_of(actionbar), fraction),
        r.0.bottom <= actionbar.top,
        r.1.left == r.0.left,
        r.1.left <= r.1.right <= r.0.right,
        fraction >= 1_000_000 ==> r.1 == r.0,
{
    let share: i64 = if fraction > 1_000_000 {
        1_000_000
    } else {
        fraction as i64
    };
    let track = PixelRect {
        left: actionbar.left,
        top: actionbar.top - 14_000,
        right: actionbar.right,
        bottom: actionbar.top - 6_000,
    };
    let width: i64 = track.right - track.left;
    proof {
        assert(0 <= width * share <= 0x2_0000_0000 * 1_000_000) by (nonlinear_arith)
            requires
                0 <= width <= 0x2_0000_0000,
                0 <= share <= 1_000_000,
        ;
        assert(width * share / 1_000_000 <= width) by (nonlinear_arith)
            requires
                0 <= width,
                0 <= share <= 1_000_000,
        ;
        if share == 1_000_000 {
            assert(width * 1_000_000 / 1_000_000 == width);
        }
    }
    let fill = PixelRect {
        left: track.left,
        top: track.top,
        right: track.left + width * share / 1_000_000,
        bottom: track.bottom,
    };
    (track, fill)
}

/// What is painted over the hotbar.
pub struct RangedHud {
    pub ammo_text: String,
    pub ammo_color: Rgba,
    /// The track, the filled part and its colour, while there is something to
    /// fill.
    pub bar: Option<(PixelRect, PixelRect, Rgba)>,
}

/// The share and the colour of a bar: a draw brightens as it fills.
pub open spec fn fill_look(fill: RangedHudFill) -> (u32, Rgba) {
    match fill {
        RangedHudFill::Draw(f) => (
            f,
            shade(240, 242, 245, (170 + 80 * at_most_all(f) / 1_000_000) as u8),
        ),
        RangedHudFill::Reload(f) => (f, shade(150, 200, 255, 230)),
    }
}

/// Draws up the count and the bar; nothing until it is known where the hotbar is.
pub fn ranged_hud(view: RangedHudView, actionbar: Option<PixelRect>) -> (r: Option<RangedHud>)
    requires
        actionbar matches Some(place) ==> place.on_screen(),
    ensures
        r is Some == (actionbar is Some),
        (actionbar matches Some(place) && r matches Some(hud)) ==> {
            let place = actionbar->0;
            let hud = r->0;
            &&& hud.ammo_text@ == digits(view.ammo as nat)
            &&& hud.ammo_color == if view.ammo == 0 {
                shade(235, 110, 90, 235)
            } else {
                shade(230, 233, 238, 200)
            }
            &&& hud.bar == match view.fill {
                Some(fill) => Some(
                    (
                        track_of(place),
                        filled(track_of(place), fill_look(fill).0),
                        fill_look(fill).1,
                    ),
                ),
                None => None,
            }
        },
{
    let place = match actionbar {
        Some(place) => place,
        None => {
            return None;
        },
    };
    let ammo_color: Rgba = if view.ammo == 0 {
        translucent(235, 110, 90, 235)
    } else {
        translucent(230, 233, 238, 200)
    };
    let bar: Option<(PixelRect, PixelRect, Rgba)> = match view.fill {
        Some(fill) => {
            let (fraction, color): (u32, Rgba) = match fill {
                RangedHudFill::Draw(f) => {
                    let share: u64 = if f > 1_000_000 {
                        1_000_000
                    } else {
                        f as u64
                    };
                    let alpha: u8 = (170 + 80 * share / 1_000_000) as u8;
                    (f, translucent(240, 242, 245, alpha))
                },
                RangedHudFill::Reload(f) => (f, translucent(150, 200, 255, 230)),
            };
            let (track, part) = ranged_bar_rects(place, fraction);
            Some((track, part, color))
        },
        None => None,
    };
    Some(RangedHud { ammo_text: decimal(view.ammo as u64), ammo_color, bar })
}

/// In hand is what the active slot holds and the registry knows.
pub proof fn hand_holds_the_active_stack(
    items: Seq<ItemDefinition>,
    carried: PlayerInventoryState,
    k: int,
)
    requires
        carried.active_actionbar_slot < carried.actionbar_slots@.len(),
        carried.actionbar_slots@[carried.active_actionbar_slot as int] is Some,
        0 <= k < items.len(),
        items[k].id@ == carried.actionbar_slots@[carried.active_actionbar_slot as int]->0.item_id@,
        forall|i: int|
            0 <= i < k ==> (#[trigger] items[i]).id@
                != carried.actionbar_slots@[carried.active_actionbar_slot as int]->0.item_id@,
    ensures
        in_hand(items, Some(&carried)) == Some(
            (
                carried.actionbar_slots@[carried.active_actionbar_slot as int]->0,
                items[k],
            ),
        ),
        in_hand(items, None) is None,
{
    let stack = carried.actionbar_slots@[carried.active_actionbar_slot as int]->0;
    first_row_of_the_id_is_found(items, stack.item_id@, k);
    slots_are_read_from_their_container(carried, carried.active_actionbar_slot);
}

/// The count is all that is carried, as long as it can be shown.
pub proof fn count_is_all_that_is_carried(inventory: PlayerInventoryState, id: Seq<char>)
    ensures
        carried_amount(inventory, id) <= u32::MAX ==> shown_count(inventory, id)
            == carried_amount(inventory, id),
        shown_count(inventory, id) <= u32::MAX,
        carried_amount(inventory, id) > u32::MAX ==> shown_count(inventory, id) == u32::MAX,
{
}

/// The track lies just over the hotbar, as wide as it and eight points high.
pub proof fn track_lies_over_the_hotbar(actionbar: PixelRect)
    requires
        actionbar.on_screen(),
    ensures
        ({
            let track = track_of(actionbar);
            &&& track.left == actionbar.left
            &&& track.right == actionbar.right
            &&& actionbar.top - track.bottom == 6_000
            &&& track.bottom - track.top == 8_000
        }),
{
}

/// The filled part starts at the left with the height of the track and takes the share
/// of its width, rounded down: nothing at first, all at the end, and never less later.
pub proof fn bar_fills_from_the_left(track: PixelRect, less: u32, more: u32)
    requires
        track.on_screen(),
        less <= more,
    ensures
        ({
            let part = filled(track, less);
            let width = track.right - track.left;
            &&& part.left == track.left
            &&& part.top == track.top
            &&& part.bottom == track.bottom
            &&& part.right <= filled(track, more).right
            &&& less >= 1_000_000 ==> part.right == track.right
            &&& less == 0 ==> part.right == track.left
            &&& less <= 1_000_000 ==> (part.right - track.left) * 1_000_000 <= width * less < (
            part.right - track.left + 1) * 1_000_000
        }),
{
    let width = track.right - track.left;
    let a = width * at_most_all(less);
    let b = width * at_most_all(more);
    let all: int = 1_000_000;
    assert(0 <= a <= b <= width * all) by (nonlinear_arith)
        requires
            a == width * at_most_all(less),
            b == width * at_most_all(more),
            0 <= width,
            0 <= at_most_all(less) <= at_most_all(more) <= all,
    ;
    assert(width * 1_000_000 / 1_000_000 == width);
    assert(a / 1_000_000 <= b / 1_000_000 <= width);
    let zero = 0u32;
    assert(width * at_most_all(zero) == 0) by (nonlinear_arith)
        requires
            at_most_all(zero) == 0,
    ;
}

/// The bar fills by the fraction of its own kind, and a draw brightens as it fills while
/// a reload does not.
pub proof fn draws_brighten_as_they_fill(less: u32, more: u32)
    requires
        less <= more,
    ensures
        fill_look(RangedHudFill::Draw(less)).0 == less,
        fill_look(RangedHudFill::Reload(less)).0 == less,
        fill_look(RangedHudFill::Draw(less)).1.a <= fill_look(RangedHudFill::Draw(more)).1.a,
        fill_look(RangedHudFill::Draw(0)).1.a == 170,
        more >= 1_000_000 ==> fill_look(RangedHudFill::Draw(more)).1.a == 250,
        fill_look(RangedHudFill::Reload(less)).1 == fill_look(RangedHudFill::Reload(more)).1,
{
}

} // verus!
