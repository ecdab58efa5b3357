//! When settings are told to the server and written to disk. Times are in
//! microseconds.
use vstd::prelude::*;

verus! {

/// How long settings rest before they are written.
pub const SETTINGS_SAVE_DEBOUNCE: u64 = 350_000;

/// How far the player wants to see.
#[derive(Clone, Copy, Debug, PartialEq, Eq, Structural)]
pub struct ViewRadiusTier {
    pub index: u8,
}

/// Decides whether the server has to be told how far the player wants to see: it
/// is connected and was not told yet. Losing the session forgets what was told.
pub fn view_radius_due(
    last_sent: &mut Option<ViewRadiusTier>,
    desired: ViewRadiusTier,
    connected: bool,
) -> (r: bool)
    ensures
        r == (connected && *old(last_sent) != Some(desired)),
        *final(last_sent) == if connected {
            *old(last_sent)
        } else {
            None
        },
{
    if !connected {
        *last_sent = None;
        return false;
    }
    match *last_sent {
        Some(tier) => tier != desired,
        None => true,
    }
}

/// Remembers what the server was told, once it went through.
pub fn view_radius_sent(
    last_sent: &mut Option<ViewRadiusTier>,
    desired: ViewRadiusTier,
    went_through: bool,
)
    ensures
        *final(last_sent) == if went_through {
            Some(desired)
        } else {
            *old(last_sent)
        },
{
    if went_through {
        *last_sent = Some(desired);
    }
}

/// How long the settings have rested after a frame: a change starts anew.
pub open spec fn rested(pending: Option<u64>, changed: bool, delta: u64) -> Option<int> {
    if changed {
        Some(delta as int)
    } else {
        match pending {
            Some(elapsed) => Some(elapsed + delta),
            None => None,
        }
    }
}

/// Decides whether to write the settings: they changed, and then rested long
/// enough. `pending` is how long changed settings have rested.
pub fn save_due(pending: &mut Option<u64>, changed: bool, delta: u64) -> (r: bool)
    ensures
        match rested(*old(pending), changed, delta) {
            Some(elapsed) => {
                &&& r == (elapsed >= SETTINGS_SAVE_DEBOUNCE)
                &&& *final(pending) == if r {
                    None
                } else {
                    Some(elapsed as u64)
                }
            },
            None => !r && *final(pending) is None,
        },
        r ==> (changed || *old(pending) is Some) && *final(pending) is None,
        changed ==> (r <==> delta >= 350_000),
        !changed && *old(pending) is Some ==> (r <==> old(pending)->0 + delta >= 350_000),
        changed && delta < SETTINGS_SAVE_DEBOUNCE ==> !r && *final(pending) == Some(delta),
        changed && delta >= SETTINGS_SAVE_DEBOUNCE ==> r,
        !changed && *old(pending) is Some && old(pending)->0 + delta >= SETTINGS_SAVE_DEBOUNCE
            ==> r,
{
    let start: u64 = if changed {
        0
    } else {
        match *pending {
            Some(elapsed) => elapsed,
            None => {
                return false;
            },
        }
    };
    let elapsed: u64 = start.saturating_add(delta);
    if elapsed >= SETTINGS_SAVE_DEBOUNCE {
        *pending = None;
        true
    } else {
        *pending = Some(elapsed);
        false
    }
}

/// Settings that change in every frame are not written meanwhile, as long as
/// frames are short, and settings that never changed are not written at all.
pub proof fn changing_settings_wait(pending: Option<u64>, delta: u64)
    requires
        delta < SETTINGS_SAVE_DEBOUNCE,
    ensures
        rested(pending, true, delta) matches Some(elapsed) && elapsed < SETTINGS_SAVE_DEBOUNCE,
        rested(None, false, delta) is None,
{
}

/// A change rests anew from the frame it came in, and unchanged settings rest on.
pub proof fn changes_rest_anew(pending: u64, delta: u64)
    ensures
        rested(Some(pending), true, delta) == Some(delta as int),
        rested(None, true, delta) == Some(delta as int),
        rested(Some(pending), false, delta) == Some(pending + delta),
{
}

} // verus!
