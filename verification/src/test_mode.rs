//! What a test run changes when it starts: where the player stands, and where the
//! window goes.
use vstd::prelude::*;
use crate::items::Vec3Net;
use crate::menu::{MenuState, Screen};
use crate::sorting::{
    insert_position, stable_sort, stable_sort_is_in_order, stable_sort_keeps_length,
};

verus! {

/// What a test run asks for. Lengths are in millimetres, the yaw in thousandths of
/// a radian.
#[derive(Clone, Copy, Debug, PartialEq, Eq)]
pub struct TestModeConfig {
    pub spawn_offset_x: i32,
    pub spawn_offset_z: i32,
    pub spawn_yaw: Option<i32>,
    pub inventory_open_on_join: bool,
    pub auto_test_kit_on_join: bool,
    /// The number of the window, where the run places its windows.
    pub window: Option<u32>,
}

/// What is changed at the start.
pub struct TestModeChanges {
    /// Where the player is put.
    pub x: i64,
    pub z: i64,
    /// Where the player and the camera look then.
    pub yaw: Option<i32>,
    /// A command to send.
    pub command: Option<String>,
}

/// The changes are due: they were not made yet, there are some, and the player is
/// in the game.
pub open spec fn changes_due(
    applied: bool,
    wanted: bool,
    menu: MenuState,
    standing: Option<Vec3Net>,
) -> bool {
    !applied && wanted && menu.screen == Screen::InGame && standing is Some
}

/// Makes the changes of a test run, once. `standing` is where the player is,
/// while that is known.
pub fn apply_test_mode_overrides(
    applied: &mut bool,
    config: &TestModeConfig,
    wanted: bool,
    menu: &mut MenuState,
    standing: Option<Vec3Net>,
    connected: bool,
) -> (r: Option<TestModeChanges>)
    ensures
        ({
            let due = changes_due(*old(applied), wanted, *old(menu), standing);
            &&& r is Some == due
            &&& *final(applied) == (*old(applied) || due)
            &&& *final(menu) == (MenuState {
                inventory_open: old(menu).inventory_open || (due && config.inventory_open_on_join),
                ..*old(menu)
            })
            &&& due ==> {
                &&& r->0.x == standing->0.x + config.spawn_offset_x
                &&& r->0.z == standing->0.z + config.spawn_offset_z
                &&& r->0.yaw == config.spawn_yaw
                &&& r->0.command is Some == (config.auto_test_kit_on_join && connected)
                &&& r->0.command matches Some(text) ==> text@ == "test-kit"@
            }
        }),
{
    if *applied || !wanted {
        return None;
    }
    match menu.screen {
        Screen::InGame => {},
        _ => {
            return None;
        },
    }
    let place = match standing {
        Some(place) => place,
        None => {
            return None;
        },
    };
    if config.inventory_open_on_join {
        menu.inventory_open = true;
    }
    let command: Option<String> = if config.auto_test_kit_on_join && connected {
        Some("test-kit".to_owned())
    } else {
        None
    };
    *applied = true;
    Some(
        TestModeChanges {
            x: place.x as i64 + config.spawn_offset_x as i64,
            z: place.z as i64 + config.spawn_offset_z as i64,
            yaw: config.spawn_yaw,
            command,
        },
    )
}

/// A screen: where it lies on the desktop, how large it is in pixels, and how many
/// pixels make a point, in thousandths.
#[derive(Clone, Copy, Debug, PartialEq, Eq, Structural)]
pub struct MonitorInfo {
    pub entity: u64,
    pub x: i32,
    pub y: i32,
    pub width: u32,
    pub height: u32,
    pub scale: u32,
}

/// A screen lies left of another, or above it where both are equally far left.
pub open spec fn lies_before(a: MonitorInfo, b: MonitorInfo) -> bool {
    a.x < b.x || (a.x == b.x && a.y < b.y)
}

/// The screens from left to right; equally placed ones keep their order.
pub open spec fn left_to_right(monitors: Seq<MonitorInfo>) -> Seq<MonitorInfo> {
    stable_sort(monitors, |a: MonitorInfo, b: MonitorInfo| lies_before(a, b))
}

/// Orders the screens from left to right.
pub fn ordered_monitors(monitors: &Vec<MonitorInfo>) -> (r: Vec<MonitorInfo>)
    ensures
        r@ == left_to_right(monitors@),
        r@.len() == monitors@.len(),
{
    let ghost before = |a: MonitorInfo, b: MonitorInfo| lies_before(a, b);
    let mut r: Vec<MonitorInfo> = Vec::new();
    let mut i: usize = 0;
    proof {
        assert(monitors@.take(0) =~= Seq::<MonitorInfo>::empty());
    }
    while i < monitors.len()
        invariant
            i <= monitors.len(),
            before == (|a: MonitorInfo, b: MonitorInfo| lies_before(a, b)),
            r@ == stable_sort(monitors@.take(i as int), before),
            r.len() == i,
        decreases monitors.len() - i,
    {
        let x = monitors[i];
        let mut p: usize = r.len();
        proof {
            assert(r@.take(r.len() as int) =~= r@);
        }
        while p > 0 && (x.x < r[p - 1].x || (x.x == r[p - 1].x && x.y < r[p - 1].y))
            invariant
                p <= r.len(),
                before == (|a: MonitorInfo, b: MonitorInfo| lies_before(a, b)),
                insert_position(r@, x, before) == insert_position(r@.take(p as int), x, before),
            decreases p,
        {
            proof {
                assert(r@.take(p as int).drop_last() =~= r@.take(p - 1));
                assert(r@.take(p as int).last() == r@[p - 1]);
            }
            p = p - 1;
        }
        proof {
            if p > 0 {
                assert(r@.take(p as int).last() == r@[p - 1]);
            }
            assert(p == insert_position(r@, x, before));
            assert(monitors@.take(i + 1).drop_last() =~= monitors@.take(i as int));
            assert(monitors@.take(i + 1).last() == x);
        }
        r.insert(p, x);
        i = i + 1;
    }
    proof {
        assert(monitors@.take(i as int) =~= monitors@);
    }
    r
}

/// Where a window goes.
#[derive(Clone, Copy, Debug, PartialEq, Eq, Structural)]
pub enum WindowPlacement {
    /// Over the whole of a screen.
    Fullscreen { monitor: u64 },
    /// Beside the others on the only screen: the size of that screen in points, and
    /// where it lies on the desktop.
    Tiled { width: u32, height: u32, x: i32, y: i32 },
}

/// Pixels as points; a screen has at least one pixel per point.
pub open spec fn points(pixels: u32, scale: u32) -> int {
    pixels as int * 1000 / if scale < 1000 {
        1000
    } else {
        scale as int
    }
}

fn to_points(pixels: u32, scale: u32) -> (r: u32)
    ensures
        r == points(pixels, scale),
{
    let by: u64 = if scale < 1000 {
        1000
    } else {
        scale as u64
    };
    proof {
        let p = pixels as int;
        let b = by as int;
        assert(0 <= p * 1000 / b <= p) by (nonlinear_arith)
            requires
                0 <= p,
                b >= 1000,
        ;
    }
    (pixels as u64 * 1000 / by) as u32
}

/// Where the window with a number goes: each on a screen of its own from left to
/// right while there are several, the last screen taking the rest.
pub open spec fn placement_of(monitors: Seq<MonitorInfo>, index: u32) -> WindowPlacement {
    let ordered = left_to_right(monitors);
    if ordered.len() >= 2 {
        let last = ordered.len() - 1;
        WindowPlacement::Fullscreen {
            monitor: ordered[if index > last {
                last
            } else {
                index as int
            }].entity,
        }
    } else {
        WindowPlacement::Tiled {
            width: points(ordered[0].width, ordered[0].scale) as u32,
            height: points(ordered[0].height, ordered[0].scale) as u32,
            x: ordered[0].x,
            y: ordered[0].y,
        }
    }
}

/// Places the window of a test run, once. Without a window to place there is
/// nothing left to do; without screens or a window it is tried again.
pub fn reposition_test_window(
    applied: &mut bool,
    config: &TestModeConfig,
    monitors: &Vec<MonitorInfo>,
    has_window: bool,
) -> (r: Option<WindowPlacement>)
    ensures
        ({
            let due = !*old(applied) && config.window is Some && monitors@.len() > 0 && has_window;
            &&& r == if due {
                Some(placement_of(monitors@, config.window->0))
            } else {
                None
            }
            &&& *final(applied) == (*old(applied) || config.window is None || due)
        }),
{
    if *applied {
        return None;
    }
    let index = match config.window {
        Some(index) => index,
        None => {
            *applied = true;
            return None;
        },
    };
    if monitors.len() == 0 || !has_window {
        return None;
    }
    let ordered = ordered_monitors(monitors);
    *applied = true;
    if ordered.len() >= 2 {
        let last: usize = ordered.len() - 1;
        let at: usize = if index as u64 > last as u64 {
            last
        } else {
            index as usize
        };
        Some(WindowPlacement::Fullscreen { monitor: ordered[at].entity })
    } else {
        let only = ordered[0];
        Some(
            WindowPlacement::Tiled {
                width: to_points(only.width, only.scale),
                height: to_points(only.height, only.scale),
                x: only.x,
                y: only.y,
            },
        )
    }
}

/// Whether the test run owns the window, and not the player's settings.
pub fn multiplayer_test_owns_window(config: Option<&TestModeConfig>) -> (r: bool)
    ensures
        r == (config matches Some(run) && run.window is Some),
{
    match config {
        Some(run) => run.window.is_some(),
        None => false,
    }
}

/// Two windows of a run with enough screens go to two screens.
pub proof fn windows_share_no_screen(monitors: Seq<MonitorInfo>, a: u32, b: u32)
    requires
        monitors.len() >= 2,
        a < b < monitors.len(),
        forall|i: int, j: int|
            0 <= i < j < left_to_right(monitors).len() ==> (#[trigger] left_to_right(
                monitors,
            )[i]).entity != (#[trigger] left_to_right(monitors)[j]).entity,
    ensures
        placement_of(monitors, a) != placement_of(monitors, b),
{
    stable_sort_keeps_length(monitors, |a: MonitorInfo, b: MonitorInfo| lies_before(a, b));
    assert(left_to_right(monitors)[a as int].entity != left_to_right(monitors)[b as int].entity);
}

/// The screens stand from left to right, and of two equally far left the upper one
/// first; each of them is there.
pub proof fn screens_stand_from_left_to_right(monitors: Seq<MonitorInfo>, i: int, j: int)
    requires
        0 <= i < j < left_to_right(monitors).len(),
    ensures
        left_to_right(monitors).len() == monitors.len(),
        left_to_right(monitors)[i].x <= left_to_right(monitors)[j].x,
        left_to_right(monitors)[i].x == left_to_right(monitors)[j].x ==> left_to_right(
            monitors,
        )[i].y <= left_to_right(monitors)[j].y,
{
    let before = |a: MonitorInfo, b: MonitorInfo| lies_before(a, b);
    stable_sort_keeps_length(monitors, before);
    stable_sort_is_in_order(monitors, before);
    assert(!before(left_to_right(monitors)[j], left_to_right(monitors)[i]));
}

/// With several screens a window goes to the screen of its own number from the left,
/// and windows past the last screen share the last one.
pub proof fn windows_go_by_their_number(monitors: Seq<MonitorInfo>, index: u32)
    requires
        monitors.len() >= 2,
    ensures
        index < monitors.len() ==> placement_of(monitors, index) == (WindowPlacement::Fullscreen {
            monitor: left_to_right(monitors)[index as int].entity,
        }),
        index >= monitors.len() ==> placement_of(monitors, index) == (WindowPlacement::Fullscreen {
            monitor: left_to_right(monitors).last().entity,
        }),
{
    stable_sort_keeps_length(monitors, |a: MonitorInfo, b: MonitorInfo| lies_before(a, b));
}

/// On the only screen every window is tiled over its size in points, at its place.
pub proof fn only_screen_is_tiled(monitor: MonitorInfo, index: u32)
    ensures
        placement_of(seq![monitor], index) matches WindowPlacement::Tiled { width, height, x, y }
            && x == monitor.x && y == monitor.y && width == points(monitor.width, monitor.scale)
            && height == points(monitor.height, monitor.scale),
{
    let before = |a: MonitorInfo, b: MonitorInfo| lies_before(a, b);
    let one = seq![monitor];
    let none = one.drop_last();
    assert(none =~= Seq::<MonitorInfo>::empty());
    assert(stable_sort(none, before) == none);
    assert(insert_position(none, monitor, before) == 0);
    assert(left_to_right(one) =~= one);
    points_are_no_more_than_pixels(monitor.width, monitor.scale);
    points_are_no_more_than_pixels(monitor.height, monitor.scale);
}

/// Points are the pixels over the scale, rounded down, and never more than the pixels.
pub proof fn points_are_no_more_than_pixels(pixels: u32, scale: u32)
    ensures
        0 <= points(pixels, scale) <= pixels,
        scale <= 1000 ==> points(pixels, scale) == pixels,
        scale >= 1000 ==> points(pixels, scale) * scale <= pixels * 1000 < (points(pixels, scale)
            + 1) * scale,
{
    let p = pixels as int * 1000;
    let b: int = if scale < 1000 {
        1000
    } else {
        scale as int
    };
    let q = p / b;
    assert(q * b <= p < (q + 1) * b && 0 <= q) by (nonlinear_arith)
        requires
            q == p / b,
            b > 0,
            p >= 0,
    ;
    assert(p / 1000 == pixels as int);
    assert(q <= pixels) by (nonlinear_arith)
        requires
            q * b <= pixels as int * 1000,
            b >= 1000,
            0 <= q,
    ;
}

/// The changes are made once, in the game, and only where some are wanted.
pub proof fn changes_are_made_once(wanted: bool, menu: MenuState, standing: Option<Vec3Net>)
    ensures
        !changes_due(true, wanted, menu, standing),
        changes_due(false, wanted, menu, standing) <==> wanted && standing is Some && menu.screen
            == Screen::InGame,
{
}

} // verus!
