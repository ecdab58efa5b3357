//! The slate between recorded shots. Nothing is drawn while a shot plays.
use vstd::prelude::*;
use crate::color::{Rgba, opaque, shade, solid, translucent};
use crate::text::{concat2, decimal, digits};

verus! {

/// Where a recording stands. Times are in milliseconds.
#[derive(Clone, Copy, Debug, PartialEq, Eq)]
pub enum CinematicOverlayPhase {
    Preparing,
    Countdown { shot_index: usize, length: u64 },
    Playing,
    Intermission { next_shot_index: Option<usize> },
}

/// The heading of a shot: its number, counted from one, out of how many and its
/// name; of a shot that the script does not have, only the number.
pub open spec fn title_of(shots: Seq<String>, shot_index: int) -> Seq<char> {
    if 0 <= shot_index < shots.len() {
        "Shot "@ + digits((shot_index + 1) as nat) + "/"@ + digits(shots.len()) + "  \u{2022}  "@
            + shots[shot_index]@
    } else {
        "Shot "@ + digits((shot_index + 1) as nat)
    }
}

/// Writes the heading of a shot.
pub fn shot_title(shots: &Vec<String>, shot_index: usize) -> (r: String)
    requires
        shot_index < usize::MAX,
    ensures
        r@ == title_of(shots@, shot_index as int),
{
    let number = decimal((shot_index + 1) as u64);
    let mut title = concat2("Shot ", number.as_str());
    if shot_index < shots.len() {
        let total = decimal(shots.len() as u64);
        title.append("/");
        title.append(total.as_str());
        title.append("  \u{2022}  ");
        title.append(shots[shot_index].as_str());
    }
    title
}

/// The dots under the preparing sign: one to three, another one each second.
pub open spec fn dots_at(elapsed: u64) -> nat {
    (1 + (elapsed / 1000) % 3) as nat
}

/// The number of a countdown: the seconds left, rounded up, and never below one.
pub open spec fn countdown_number(length: u64, elapsed: u64) -> nat {
    if length <= elapsed {
        1
    } else {
        ((length - elapsed + 999) / 1000) as nat
    }
}

/// Writes a row of dots.
fn dots(count: u64) -> (r: String)
    requires
        1 <= count <= 3,
    ensures
        r@ == Seq::new(count as nat, |i: int| '.'),
{
    proof {
        reveal_strlit(".");
        reveal_strlit("..");
        reveal_strlit("...");
        assert("."@ =~= Seq::new(1, |i: int| '.'));
        assert(".."@ =~= Seq::new(2, |i: int| '.'));
        assert("..."@ =~= Seq::new(3, |i: int| '.'));
    }
    if count == 1 {
        ".".to_owned()
    } else if count == 2 {
        "..".to_owned()
    } else {
        "...".to_owned()
    }
}

/// One line of the slate and its colour.
pub struct SlateLine {
    pub text: String,
    pub color: Rgba,
}

/// What the slate shows: how it dims the frame behind it, and its lines.
pub struct Slate {
    pub dim: Option<Rgba>,
    pub lines: Vec<SlateLine>,
}

/// The lines of a slate as text and colour.
pub open spec fn slate_text(lines: Seq<SlateLine>) -> Seq<(Seq<char>, Rgba)> {
    lines.map_values(|line: SlateLine| (line.text@, line.color))
}

/// What a phase shows: the dim and the lines.
pub open spec fn slate_of(shots: Seq<String>, phase: CinematicOverlayPhase, elapsed: u64) -> Option<
    (Option<Rgba>, Seq<(Seq<char>, Rgba)>),
> {
    match phase {
        CinematicOverlayPhase::Playing => None,
        CinematicOverlayPhase::Preparing => Some(
            (
                Some(shade(0, 0, 0, 200)),
                seq![
                    ("PREPARING STAGE"@, solid(0xE8, 0xE2, 0xD4)),
                    (Seq::new(dots_at(elapsed), |i: int| '.'), solid(0x9A, 0x94, 0x86)),
                ],
            ),
        ),
        CinematicOverlayPhase::Countdown { shot_index, length } => Some(
            (
                Some(shade(0, 0, 0, 110)),
                seq![
                    (title_of(shots, shot_index as int), solid(0xC8, 0xC2, 0xB4)),
                    (digits(countdown_number(length, elapsed)), solid(0xF2, 0xEC, 0xDE)),
                ],
            ),
        ),
        CinematicOverlayPhase::Intermission { next_shot_index } => Some(
            (
                None,
                seq![
                    (
                        match next_shot_index {
                            Some(next) => "Holding \u{2022} next: "@ + title_of(shots, next as int),
                            None => "Sequence complete"@,
                        },
                        solid(0xD8, 0xD2, 0xC4),
                    ),
                ],
            ),
        ),
    }
}

/// Draws up the slate of a phase.
pub fn cinematic_slate(shots: &Vec<String>, phase: CinematicOverlayPhase, elapsed: u64) -> (r:
    Option<Slate>)
    requires
        phase matches CinematicOverlayPhase::Countdown { shot_index, .. } ==> shot_index
            < usize::MAX,
        phase matches CinematicOverlayPhase::Intermission { next_shot_index: Some(next) } ==> next
            < usize::MAX,
    ensures
        match r {
            Some(slate) => slate_of(shots@, phase, elapsed) == Some(
                (slate.dim, slate_text(slate.lines@)),
            ),
            None => slate_of(shots@, phase, elapsed) is None,
        },
{
    let mut lines: Vec<SlateLine> = Vec::new();
    let dim: Option<Rgba> = match phase {
        CinematicOverlayPhase::Playing => {
            return None;
        },
        CinematicOverlayPhase::Preparing => {
            let pulse: u64 = 1 + (elapsed / 1000) % 3;
            lines.push(
                SlateLine {
                    text: "PREPARING STAGE".to_owned(),
                    color: opaque(0xE8, 0xE2, 0xD4),
                },
            );
            lines.push(SlateLine { text: dots(pulse), color: opaque(0x9A, 0x94, 0x86) });
            Some(translucent(0, 0, 0, 200))
        },
        CinematicOverlayPhase::Countdown { shot_index, length } => {
            let number: u64 = if length <= elapsed {
                1
            } else {
                let left: u64 = length - elapsed;
                (left - 1) / 1000 + 1
            };
            lines.push(
                SlateLine { text: shot_title(shots, shot_index), color: opaque(0xC8, 0xC2, 0xB4) },
            );
            lines.push(SlateLine { text: decimal(number), color: opaque(0xF2, 0xEC, 0xDE) });
            Some(translucent(0, 0, 0, 110))
        },
        CinematicOverlayPhase::Intermission { next_shot_index } => {
            let text: String = match next_shot_index {
                Some(next) => {
                    let title = shot_title(shots, next);
                    concat2("Holding \u{2022} next: ", title.as_str())
                },
                None => "Sequence complete".to_owned(),
            };
            lines.push(SlateLine { text, color: opaque(0xD8, 0xD2, 0xC4) });
            None
        },
    };
    proof {
        assert(Some((dim, slate_text(lines@))) =~~= slate_of(shots@, phase, elapsed));
    }
    Some(Slate { dim, lines })
}

/// A countdown never shows zero, and counts down one by one: its number is one in
/// its last second and grows by one with each second before.
pub proof fn countdown_ends_at_one(length: u64, elapsed: u64)
    ensures
        countdown_number(length, elapsed) >= 1,
        length <= elapsed + 1000 ==> countdown_number(length, elapsed) == 1,
        elapsed + 1000 < length ==> countdown_number(length, elapsed) == countdown_number(
            length,
            (elapsed + 1000) as u64,
        ) + 1,
{
}

/// The dots come and go by the second: one, two, three and one again.
pub proof fn dots_go_by_the_second(elapsed: u64)
    requires
        elapsed <= u64::MAX - 1000,
    ensures
        1 <= dots_at(elapsed) <= 3,
        elapsed < 1000 ==> dots_at(elapsed) == 1,
        dots_at((elapsed + 1000) as u64) == if dots_at(elapsed) == 3 {
            1
        } else {
            dots_at(elapsed) + 1
        },
{
}

/// The heading of a shot of the script tells its number out of all and its name, and of
/// another shot the number alone.
pub proof fn shots_are_counted_from_one(shots: Seq<String>, k: int)
    requires
        0 <= k,
    ensures
        k < shots.len() ==> title_of(shots, k) == title_of(Seq::empty(), k) + "/"@ + digits(
            shots.len(),
        ) + "  \u{2022}  "@ + shots[k]@,
        k >= shots.len() ==> title_of(shots, k) == "Shot "@ + digits((k + 1) as nat),
{
}

/// Nothing is drawn while a shot plays; before it the frame is dimmed and counts down
/// under the shot's own heading, and behind it what comes next is named undimmed.
pub proof fn slate_follows_the_recording(
    shots: Seq<String>,
    elapsed: u64,
    shot: usize,
    length: u64,
)
    ensures
        slate_of(shots, CinematicOverlayPhase::Playing, elapsed) is None,
        slate_of(shots, CinematicOverlayPhase::Preparing, elapsed) matches Some((dim, lines))
            && dim is Some && lines.len() == 2 && lines[1].0.len() == dots_at(elapsed),
        slate_of(
            shots,
            CinematicOverlayPhase::Countdown { shot_index: shot, length },
            elapsed,
        ) matches Some((dim, lines)) && dim is Some && lines.len() == 2 && lines[0].0 == title_of(
            shots,
            shot as int,
        ) && lines[1].0 == digits(countdown_number(length, elapsed)),
        slate_of(
            shots,
            CinematicOverlayPhase::Intermission { next_shot_index: Some(shot) },
            elapsed,
        ) matches Some((dim, lines)) && dim is None && lines.len() == 1 && title_of(
            shots,
            shot as int,
        ).is_suffix_of(lines[0].0),
        slate_of(
            shots,
            CinematicOverlayPhase::Intermission { next_shot_index: None },
            elapsed,
        ) matches Some((dim, lines)) && dim is None && lines.len() == 1 && lines[0].0
            == "Sequence complete"@,
{
    let title = title_of(shots, shot as int);
    let line = "Holding \u{2022} next: "@ + title;
    assert(line.subrange(line.len() - title.len(), line.len() as int) =~= title);
}

/// A line of the slate reads as its text and its colour.
pub proof fn slate_lines_read_text_and_colour(lines: Seq<SlateLine>, i: int)
    requires
        0 <= i < lines.len(),
    ensures
        slate_text(lines).len() == lines.len(),
        slate_text(lines)[i].0 == lines[i].text@,
        slate_text(lines)[i].1 == lines[i].color,
{
}

} // verus!
