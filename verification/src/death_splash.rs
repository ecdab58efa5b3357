//! The death screen: it fades to black, shows who did it and the way back, and
//! fades out again. Times are in microseconds.
use vstd::prelude::*;
use crate::color::{Rgba, shade, translucent};
use crate::fraction::{
    byte_share, rounded_share, rounded_share_is_the_nearest, rounded_share_rises,
    share_stays_within_scale,
};
use crate::menu::{DeathSplash, MenuState};
use crate::text::concat2;

verus! {

/// How long the screen takes to go black.
pub const BLACK_FADE: u64 = 4_000_000;

/// How long the title takes to appear on the black screen.
pub const TITLE_FADE: u64 = 600_000;

/// How long the screen takes to fade out.
pub const CLOSE_FADE: u64 = 450_000;

/// A time up to a limit.
pub open spec fn up_to(time: int, limit: int) -> int {
    if time < 0 {
        0
    } else if time > limit {
        limit
    } else {
        time
    }
}

/// What is left of a screen that fades out.
pub open spec fn left_open(splash: DeathSplash) -> int {
    match splash.closing_elapsed {
        Some(closing) => CLOSE_FADE - up_to(closing as int, CLOSE_FADE as int),
        None => CLOSE_FADE as int,
    }
}

/// How black the screen is.
pub open spec fn backdrop_alpha(splash: DeathSplash) -> int {
    rounded_share(
        255,
        up_to(splash.elapsed as int, BLACK_FADE as int) * left_open(splash),
        BLACK_FADE * CLOSE_FADE,
    )
}

/// How solid the title is.
pub open spec fn title_alpha(splash: DeathSplash) -> int {
    rounded_share(
        255,
        up_to(splash.elapsed - BLACK_FADE, TITLE_FADE as int) * left_open(splash),
        TITLE_FADE * CLOSE_FADE,
    )
}

fn remaining(splash: &DeathSplash) -> (r: u64)
    ensures
        r == left_open(*splash),
        r <= CLOSE_FADE,
{
    match splash.closing_elapsed {
        Some(closing) => if closing > CLOSE_FADE {
            0
        } else {
            CLOSE_FADE - closing
        },
        None => CLOSE_FADE,
    }
}

fn faded(time: u64, limit: u64, left: u64) -> (r: u8)
    requires
        0 < limit <= BLACK_FADE,
        left <= CLOSE_FADE,
    ensures
        r == rounded_share(255, up_to(time as int, limit as int) * left, limit * CLOSE_FADE),
{
    let risen: u64 = if time > limit {
        limit
    } else {
        time
    };
    proof {
        assert(0 <= risen * left <= limit * CLOSE_FADE <= 4_000_000 * 450_000) by (nonlinear_arith)
            requires
                0 <= risen <= limit <= 4_000_000,
                0 <= left <= CLOSE_FADE,
                CLOSE_FADE == 450_000,
        ;
        assert(0 < limit * CLOSE_FADE) by (nonlinear_arith)
            requires
                0 < limit,
                CLOSE_FADE == 450_000,
        ;
    }
    byte_share(255, risen * left, limit * CLOSE_FADE)
}

/// The text and colours of the death screen.
pub struct DeathTitle {
    pub title: String,
    pub title_color: Rgba,
    pub subline: String,
    pub subline_color: Rgba,
}

/// What the death screen shows.
pub struct DeathView {
    pub backdrop: Rgba,
    /// The title and the button, once they are seen at all.
    pub title: Option<DeathTitle>,
}

/// Draws up the death screen.
pub fn death_splash_view(splash: &DeathSplash) -> (r: DeathView)
    ensures
        r.backdrop == shade(0, 0, 0, backdrop_alpha(*splash) as u8),
        r.title is Some == (title_alpha(*splash) != 0),
        r.title matches Some(shown) ==> {
            let alpha = title_alpha(*splash) as u8;
            &&& shown.title@ == "YOU DIED"@
            &&& shown.title_color == shade(0xCC, 0x33, 0x33, alpha)
            &&& shown.subline@ == match splash.killer_name {
                Some(name) => "Killed by "@ + name@,
                None => "The world claimed you."@,
            }
            &&& shown.subline_color == shade(0xCC, 0xC8, 0xC0, alpha)
        },
        splash.elapsed <= BLACK_FADE ==> r.title is None,
        splash.elapsed >= BLACK_FADE && splash.closing_elapsed is None ==> r.backdrop.a == 255,
        (splash.closing_elapsed is Some && splash.closing_elapsed->0 >= CLOSE_FADE) ==> r.title
            is None && r.backdrop.a == 0,
        splash.elapsed >= BLACK_FADE + TITLE_FADE && splash.closing_elapsed is None ==> r.title
            is Some,
{
    proof {
        title_waits_for_black(*splash);
        share_stays_within_scale(255, TITLE_FADE * CLOSE_FADE, TITLE_FADE * CLOSE_FADE);
    }
    let left = remaining(splash);
    let black = faded(splash.elapsed, BLACK_FADE, left);
    let since_black: u64 = if splash.elapsed > BLACK_FADE {
        splash.elapsed - BLACK_FADE
    } else {
        0
    };
    let alpha = faded(since_black, TITLE_FADE, left);
    let backdrop = translucent(0, 0, 0, black);
    if alpha == 0 {
        return DeathView { backdrop, title: None };
    }
    let subline: String = match &splash.killer_name {
        Some(name) => concat2("Killed by ", name.as_str()),
        None => "The world claimed you.".to_owned(),
    };
    DeathView {
        backdrop,
        title: Some(
            DeathTitle {
                title: "YOU DIED".to_owned(),
                title_color: translucent(0xCC, 0x33, 0x33, alpha),
                subline,
                subline_color: translucent(0xCC, 0xC8, 0xC0, alpha),
            },
        ),
    }
}

/// Whether to ask for a respawn: the button was clicked, which is only there with
/// the title, and there is a session to ask.
pub fn respawn_requested(view: &DeathView, clicked: bool, connected: bool) -> (r: bool)
    ensures
        r == (view.title is Some && clicked && connected),
{
    view.title.is_some() && clicked && connected
}

/// A time after a frame.
pub open spec fn later(time: u64, delta: u64) -> u64 {
    if time + delta > u64::MAX {
        u64::MAX
    } else {
        (time + delta) as u64
    }
}

/// The death screen after a frame; none once it has faded out.
pub open spec fn splash_after(splash: DeathSplash, delta: u64) -> Option<DeathSplash> {
    match splash.closing_elapsed {
        Some(closing) => if later(closing, delta) >= CLOSE_FADE {
            None
        } else {
            Some(
                DeathSplash {
                    elapsed: later(splash.elapsed, delta),
                    closing_elapsed: Some(later(closing, delta)),
                    ..splash
                },
            )
        },
        None => Some(DeathSplash { elapsed: later(splash.elapsed, delta), ..splash }),
    }
}

/// Lets the death screen go on for a frame.
pub fn tick_death_splash(menu: &mut MenuState, delta: u64)
    ensures
        *final(menu) == (MenuState {
            death_splash: match old(menu).death_splash {
                Some(splash) => splash_after(splash, delta),
                None => None,
            },
            ..*old(menu)
        }),
{
    let next: Option<DeathSplash> = match menu.death_splash.take() {
        Some(splash) => {
            let elapsed: u64 = splash.elapsed.saturating_add(delta);
            match splash.closing_elapsed {
                Some(closing) => {
                    let gone: u64 = closing.saturating_add(delta);
                    if gone >= CLOSE_FADE {
                        None
                    } else {
                        Some(
                            DeathSplash {
                                killer_name: splash.killer_name,
                                elapsed,
                                closing_elapsed: Some(gone),
                            },
                        )
                    }
                },
                None => Some(
                    DeathSplash {
                        killer_name: splash.killer_name,
                        elapsed,
                        closing_elapsed: None,
                    },
                ),
            }
        },
        None => None,
    };
    menu.death_splash = next;
}

/// The title never shows before the screen is black, and a screen that has faded
/// out shows nothing.
pub proof fn title_waits_for_black(splash: DeathSplash)
    ensures
        splash.elapsed <= BLACK_FADE ==> title_alpha(splash) == 0,
        (splash.closing_elapsed matches Some(closing) && closing >= CLOSE_FADE) ==> title_alpha(
            splash,
        ) == 0 && backdrop_alpha(splash) == 0,
        splash.elapsed >= BLACK_FADE && splash.closing_elapsed is None ==> backdrop_alpha(splash)
            == 255,
{
    let left = left_open(splash);
    let title = up_to(splash.elapsed - BLACK_FADE, TITLE_FADE as int);
    let black = up_to(splash.elapsed as int, BLACK_FADE as int);
    share_stays_within_scale(255, 0, TITLE_FADE * CLOSE_FADE);
    share_stays_within_scale(255, 0, BLACK_FADE * CLOSE_FADE);
    share_stays_within_scale(255, BLACK_FADE * CLOSE_FADE, BLACK_FADE * CLOSE_FADE);
    assert(0 * left == 0 && title * 0 == 0 && black * 0 == 0) by (nonlinear_arith);
}

/// The open screen darkens evenly: after any time the black is the nearest to the share
/// of the fade that has passed.
pub proof fn screen_darkens_evenly(splash: DeathSplash)
    requires
        splash.closing_elapsed is None,
        splash.elapsed <= BLACK_FADE,
    ensures
        -(BLACK_FADE as int) < 2 * (backdrop_alpha(splash) * BLACK_FADE - 255 * splash.elapsed)
            <= BLACK_FADE,
{
    let part = splash.elapsed * CLOSE_FADE;
    let whole = BLACK_FADE * CLOSE_FADE;
    rounded_share_is_the_nearest(255, part, whole);
    let alpha = backdrop_alpha(splash);
    let off = alpha * BLACK_FADE - 255 * splash.elapsed;
    assert(splash.elapsed * CLOSE_FADE == splash.elapsed * 450_000);
    assert(up_to(splash.elapsed as int, BLACK_FADE as int) == splash.elapsed as int);
    assert(alpha == rounded_share(255, part, whole));
    assert(alpha * whole == (alpha * 4_000_000) * 450_000) by (nonlinear_arith)
        requires
            whole == 4_000_000 * 450_000,
    ;
    assert(off * 450_000 == alpha * whole - 255 * part);
}

/// The title appears evenly on the black screen: after any time it is the nearest to
/// the share of its fade that has passed since.
pub proof fn title_appears_evenly(splash: DeathSplash)
    requires
        splash.closing_elapsed is None,
        BLACK_FADE <= splash.elapsed <= BLACK_FADE + TITLE_FADE,
    ensures
        -(TITLE_FADE as int) < 2 * (title_alpha(splash) * TITLE_FADE - 255 * (splash.elapsed
            - BLACK_FADE)) <= TITLE_FADE,
{
    let since = splash.elapsed - BLACK_FADE;
    let part = since * CLOSE_FADE;
    let whole = TITLE_FADE * CLOSE_FADE;
    rounded_share_is_the_nearest(255, part, whole);
    let alpha = title_alpha(splash);
    let off = alpha * TITLE_FADE - 255 * since;
    assert(since * CLOSE_FADE == since * 450_000);
    assert(up_to(since, TITLE_FADE as int) == since);
    assert(alpha == rounded_share(255, part, whole));
    assert(alpha * whole == (alpha * 600_000) * 450_000) by (nonlinear_arith)
        requires
            whole == 600_000 * 450_000,
    ;
    assert(off * 450_000 == alpha * whole - 255 * part);
}

/// A screen that fades out only loses: the longer it fades, the less is left of both
/// the black and the title, and an open screen only gains.
pub proof fn closing_screen_only_loses(
    splash: DeathSplash,
    earlier: u64,
    later: u64,
    less: u64,
    more: u64,
)
    requires
        earlier <= later,
        less <= more,
    ensures
        ({
            let before = DeathSplash { closing_elapsed: Some(earlier), ..splash };
            let after = DeathSplash { closing_elapsed: Some(later), ..splash };
            &&& backdrop_alpha(after) <= backdrop_alpha(before)
            &&& title_alpha(after) <= title_alpha(before)
            &&& left_open(DeathSplash { closing_elapsed: Some(0), ..splash }) == CLOSE_FADE
            &&& left_open(DeathSplash { closing_elapsed: None, ..splash }) == CLOSE_FADE
            &&& later <= CLOSE_FADE ==> left_open(after) == CLOSE_FADE - later
        }),
        ({
            let young = DeathSplash { elapsed: less, ..splash };
            let old = DeathSplash { elapsed: more, ..splash };
            &&& backdrop_alpha(young) <= backdrop_alpha(old)
            &&& title_alpha(young) <= title_alpha(old)
        }),
{
    let before = left_open(DeathSplash { closing_elapsed: Some(earlier), ..splash });
    let after = left_open(DeathSplash { closing_elapsed: Some(later), ..splash });
    let left = left_open(splash);
    let black = up_to(splash.elapsed as int, BLACK_FADE as int);
    let title = up_to(splash.elapsed - BLACK_FADE, TITLE_FADE as int);
    assert(black * after <= black * before && title * after <= title * before) by (nonlinear_arith)
        requires
            0 <= black,
            0 <= title,
            after <= before,
    ;
    rounded_share_rises(255, black * after, black * before, BLACK_FADE * CLOSE_FADE);
    rounded_share_rises(255, title * after, title * before, TITLE_FADE * CLOSE_FADE);
    let black_less = up_to(less as int, BLACK_FADE as int);
    let black_more = up_to(more as int, BLACK_FADE as int);
    let title_less = up_to(less - BLACK_FADE, TITLE_FADE as int);
    let title_more = up_to(more - BLACK_FADE, TITLE_FADE as int);
    assert(black_less * left <= black_more * left && title_less * left <= title_more * left)
        by (nonlinear_arith)
        requires
            0 <= left,
            black_less <= black_more,
            title_less <= title_more,
    ;
    rounded_share_rises(255, black_less * left, black_more * left, BLACK_FADE * CLOSE_FADE);
    rounded_share_rises(255, title_less * left, title_more * left, TITLE_FADE * CLOSE_FADE);
}

/// Two frames take the screen as far as one of their length together, the killer stays
/// named, and the screen is gone exactly once its fade has run.
pub proof fn splash_frames_add_up(splash: DeathSplash, first: u64, second: u64)
    requires
        first + second <= u64::MAX,
        splash.elapsed + first + second <= u64::MAX,
        splash.closing_elapsed is Some ==> splash.closing_elapsed->0 + first + second
            <= u64::MAX,
    ensures
        splash_after(splash, first) is None <==> splash.closing_elapsed is Some
            && splash.closing_elapsed->0 + first >= CLOSE_FADE,
        splash_after(splash, first) matches Some(next) ==> {
            &&& next.killer_name == splash.killer_name
            &&& next.elapsed == splash.elapsed + first
            &&& next.closing_elapsed is Some == splash.closing_elapsed is Some
            &&& splash_after(next, second) == splash_after(splash, (first + second) as u64)
        },
{
}

/// The screen goes black over four seconds, the title appears over the six tenths of a
/// second behind that, and a closing screen is gone after less than half a second; times
/// stop at the longest that can be counted.
pub proof fn death_screen_takes_its_time(splash: DeathSplash, delta: u64)
    ensures
        splash.closing_elapsed is None && splash.elapsed >= 4_000_000 ==> backdrop_alpha(splash)
            == 255,
        splash.elapsed <= 4_000_000 ==> title_alpha(splash) == 0,
        splash.closing_elapsed is None && splash.elapsed >= 4_600_000 ==> title_alpha(splash)
            == 255,
        splash.closing_elapsed is Some && splash.closing_elapsed->0 >= 450_000 ==> backdrop_alpha(
            splash,
        ) == 0,
        splash.closing_elapsed is Some && splash.closing_elapsed->0 + delta >= 450_000
            ==> splash_after(splash, delta) is None,
        splash.closing_elapsed is None || splash.closing_elapsed->0 + delta < 450_000
            ==> splash_after(splash, delta) is Some,
        splash.elapsed + delta > u64::MAX ==> later(splash.elapsed, delta) == u64::MAX,
        splash.elapsed + delta <= u64::MAX ==> later(splash.elapsed, delta) == splash.elapsed
            + delta,
{
    title_waits_for_black(splash);
    share_stays_within_scale(255, TITLE_FADE * CLOSE_FADE, TITLE_FADE * CLOSE_FADE);
}

} // verus!
