//! The warning to leave a place where a meteor will land.
use vstd::prelude::*;
use crate::color::{Rgba, opaque, shade, solid, translucent};
use crate::items::{Vec3Net, reach_is_a_level_distance, within_range};

verus! {

/// The warning grows over this long before the impact, in milliseconds.
pub const WARNING_SPAN: i64 = 60_000;

/// A meteor on its way, or landed.
#[derive(Clone, Copy, Debug, PartialEq, Eq, Structural)]
pub struct MeteorEvent {
    pub impact_position: Vec3Net,
    /// Its size in thousandths.
    pub size: u32,
    pub impacted: bool,
    pub millis_to_impact: i64,
}

/// How urgent the warning is, from nothing a minute before the impact to all at
/// the impact.
pub open spec fn urgency(millis_to_impact: i64) -> int {
    if millis_to_impact >= WARNING_SPAN {
        0
    } else if millis_to_impact <= 0 {
        WARNING_SPAN as int
    } else {
        WARNING_SPAN - millis_to_impact
    }
}

/// Finds how urgent the warning is, out of a minute in milliseconds.
pub fn meteor_shower_danger_intensity(millis_to_impact: i64) -> (r: u32)
    ensures
        r == urgency(millis_to_impact),
        r <= WARNING_SPAN,
{
    if millis_to_impact >= WARNING_SPAN {
        0
    } else if millis_to_impact <= 0 {
        WARNING_SPAN as u32
    } else {
        (WARNING_SPAN - millis_to_impact) as u32
    }
}

/// The radius that a meteor of a size endangers, in millimetres.
pub open spec fn danger_radius(base: u32, size: u32) -> int {
    base * size / 1000
}

/// The meteor endangers a place.
pub open spec fn endangers(event: MeteorEvent, base: u32, place: Vec3Net) -> bool {
    !event.impacted && within_range(event.impact_position, place, danger_radius(base, event.size))
}

/// The most urgent warning among the meteors that endanger a place.
pub open spec fn worst(events: Seq<MeteorEvent>, base: u32, place: Vec3Net) -> Option<int>
    decreases events.len(),
{
    if events.len() == 0 {
        None
    } else {
        let rest = worst(events.drop_last(), base, place);
        if endangers(events.last(), base, place) {
            let here = urgency(events.last().millis_to_impact);
            match rest {
                Some(best) => Some(
                    if here > best {
                        here
                    } else {
                        best
                    },
                ),
                None => Some(here),
            }
        } else {
            rest
        }
    }
}

/// Finds the most urgent warning for a player; none for one whose place is not
/// known.
pub fn meteor_shower_intensity(
    events: &Vec<MeteorEvent>,
    base_radius: u32,
    player: Option<Vec3Net>,
) -> (r: Option<u32>)
    requires
        forall|i: int|
            0 <= i < events@.len() ==> danger_radius(base_radius, (#[trigger] events@[i]).size)
                <= u32::MAX,
    ensures
        match player {
            Some(place) => match r {
                Some(intensity) => worst(events@, base_radius, place) == Some(intensity as int)
                    && intensity <= WARNING_SPAN,
                None => worst(events@, base_radius, place) is None,
            },
            None => r is None,
        },
{
    let place = match player {
        Some(place) => place,
        None => {
            return None;
        },
    };
    let mut found: Option<u32> = None;
    let mut i: usize = 0;
    proof {
        assert(events@.take(0) =~= Seq::empty());
    }
    while i < events.len()
        invariant
            i <= events.len(),
            forall|k: int|
                0 <= k < events@.len() ==> danger_radius(base_radius, (#[trigger] events@[k]).size)
                    <= u32::MAX,
            match found {
                Some(best) => worst(events@.take(i as int), base_radius, place) == Some(
                    best as int,
                ) && best <= WARNING_SPAN,
                None => worst(events@.take(i as int), base_radius, place) is None,
            },
        decreases events.len() - i,
    {
        proof {
            assert(events@.take(i + 1).drop_last() =~= events@.take(i as int));
            assert(events@.take(i + 1).last() == events@[i as int]);
            let base = base_radius as int;
            let size = events@[i as int].size as int;
            assert(0 <= base * size <= 0xffff_ffff * 0xffff_ffff) by (nonlinear_arith)
                requires
                    0 <= base <= 0xffff_ffff,
                    0 <= size <= 0xffff_ffff,
            ;
        }
        let event = events[i];
        if !event.impacted {
            let radius: u64 = base_radius as u64 * event.size as u64 / 1000;
            assert(radius == danger_radius(base_radius, event.size));
            if event.impact_position.within_horizontal_range(place, radius as u32) {
                let here = meteor_shower_danger_intensity(event.millis_to_impact);
                found = match found {
                    Some(best) => if here > best {
                        Some(here)
                    } else {
                        Some(best)
                    },
                    None => Some(here),
                };
            }
        }
        i = i + 1;
    }
    proof {
        assert(events@.take(i as int) =~= events@);
    }
    found
}

/// What the warning shows, apart from its pulse.
pub struct MeteorWarning {
    pub text: String,
    pub text_color: Rgba,
    pub background: Rgba,
}

/// An intensity up to all.
pub open spec fn at_most_all(intensity: u32) -> int {
    if intensity > WARNING_SPAN {
        WARNING_SPAN as int
    } else {
        intensity as int
    }
}

/// Draws up the warning: it reddens and thickens with its urgency.
pub fn meteor_shower_danger_warning(intensity: u32) -> (r: MeteorWarning)
    ensures
        r.text@ == "Meteor incoming. Evacuate the area."@,
        r.text_color == solid(255, (200 - at_most_all(intensity) * 80 / 60_000) as u8, 170),
        r.background == shade(48, 6, 4, (150 + at_most_all(intensity) * 90 / 60_000) as u8),
{
    let intensity: u32 = if intensity > WARNING_SPAN as u32 {
        WARNING_SPAN as u32
    } else {
        intensity
    };
    let green: u8 = (200 - intensity * 80 / 60_000) as u8;
    let alpha: u8 = (150 + intensity * 90 / 60_000) as u8;
    MeteorWarning {
        text: "Meteor incoming. Evacuate the area.".to_owned(),
        text_color: opaque(255, green, 170),
        background: translucent(48, 6, 4, alpha),
    }
}

/// The warning only grows as the impact nears, and a landed meteor warns of
/// nothing.
pub proof fn warning_grows(sooner: i64, later: i64, event: MeteorEvent, base: u32, place: Vec3Net)
    requires
        sooner <= later,
    ensures
        urgency(later) <= urgency(sooner),
        0 <= urgency(later) <= WARNING_SPAN,
        event.impacted ==> !endangers(event, base, place),
{
}

/// Every meteor that endangers a place is warned of at least as urgently as it
/// demands.
pub proof fn every_danger_is_warned_of(
    events: Seq<MeteorEvent>,
    base: u32,
    place: Vec3Net,
    i: int,
)
    requires
        0 <= i < events.len(),
        endangers(events[i], base, place),
    ensures
        worst(events, base, place) matches Some(best) && best >= urgency(
            events[i].millis_to_impact,
        ),
    decreases events.len(),
{
    if i < events.len() - 1 {
        assert(events.drop_last()[i] == events[i]);
        every_danger_is_warned_of(events.drop_last(), base, place, i);
    }
}

/// The warning grows by the millisecond over the last minute: nothing before it, all at
/// the impact.
pub proof fn urgency_goes_by_the_clock(millis: i64)
    ensures
        millis >= 60_000 ==> urgency(millis) == 0,
        0 <= millis <= 60_000 ==> urgency(millis) + millis == 60_000,
        millis <= 0 ==> urgency(millis) == 60_000,
{
}

/// The most urgent warning is that of a meteor which endangers the place, so nobody out
/// of danger is warned.
pub proof fn warning_has_its_meteor(events: Seq<MeteorEvent>, base: u32, place: Vec3Net)
    ensures
        worst(events, base, place) matches Some(best) ==> exists|i: int|
            0 <= i < events.len() && endangers(#[trigger] events[i], base, place) && urgency(
                events[i].millis_to_impact,
            ) == best,
    decreases events.len(),
{
    if events.len() > 0 {
        let rest = events.drop_last();
        warning_has_its_meteor(rest, base, place);
        if let Some(best) = worst(events, base, place) {
            if endangers(events.last(), base, place) && best == urgency(
                events.last().millis_to_impact,
            ) {
                assert(endangers(events[events.len() - 1], base, place));
            } else {
                let i = choose|i: int|
                    0 <= i < rest.len() && endangers(#[trigger] rest[i], base, place) && urgency(
                        rest[i].millis_to_impact,
                    ) == best;
                assert(events[i] == rest[i]);
            }
        }
    }
}

/// A meteor endangers every place within its radius until it lands, and a larger one a
/// wider circle; one of the plain size has the plain radius.
pub proof fn larger_meteors_endanger_more(
    event: MeteorEvent,
    smaller: u32,
    base: u32,
    place: Vec3Net,
)
    requires
        smaller <= event.size,
        !event.impacted,
    ensures
        danger_radius(base, 1000) == base,
        danger_radius(base, smaller) <= danger_radius(base, event.size),
        endangers(MeteorEvent { size: smaller, ..event }, base, place) ==> endangers(
            event,
            base,
            place,
        ),
        endangers(event, base, place) <==> within_range(
            event.impact_position,
            place,
            danger_radius(base, event.size),
        ),
{
    let a = base * smaller;
    let b = base * event.size;
    assert(0 <= a <= b) by (nonlinear_arith)
        requires
            a == base * smaller,
            b == base * event.size,
            0 <= base,
            0 <= smaller <= event.size,
    ;
    reach_is_a_level_distance(
        event.impact_position,
        place,
        place,
        danger_radius(base, smaller),
        danger_radius(base, event.size),
    );
}

/// An intensity past all counts as all.
pub proof fn intensity_is_capped(intensity: u32)
    ensures
        at_most_all(intensity) <= 60_000,
        intensity <= 60_000 ==> at_most_all(intensity) == intensity,
        intensity >= 60_000 ==> at_most_all(intensity) == 60_000,
{
}

/// The warning begins a minute before the impact.
pub proof fn warnings_begin_a_minute_before(millis: i64)
    ensures
        urgency(millis) > 0 <==> millis < 60_000,
        urgency(millis) == 60_000 <==> millis <= 0,
{
}

} // verus!
