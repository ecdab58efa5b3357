//! The performance box. Times are in microseconds.
use vstd::prelude::*;
use crate::hud::health::{nearest_even, round_even, written_health_is_the_nearest};
use crate::sorting::{sort_numbers, stable_sort, stable_sort_keeps_length};
use crate::text::{concat3, decimal, digits, signed_decimal, signed_digits};

verus! {

/// The pace of the frames: the average rate in thousandths, the last frame, and
/// what hides behind the average.
#[derive(Clone, Copy, Debug, PartialEq, Eq, Structural)]
pub struct FrameTimeStats {
    pub fps: u64,
    pub last: u64,
    pub p99: u64,
    pub max: u64,
}

/// The place of the slow frames among the sorted ones.
pub open spec fn slow_place(count: int) -> int {
    let place = count * 99 / 100;
    if place > count - 1 {
        count - 1
    } else {
        place
    }
}

/// The samples in rising order.
pub open spec fn rising(samples: Seq<u64>) -> Seq<u64> {
    stable_sort(samples, |a: u64, b: u64| a < b)
}

/// Works out the pace of the frames from the samples of the last second: the
/// slowest one, and the one that all but a hundredth stay below.
pub fn frame_time_stats(fps: Option<u64>, last: Option<u64>, samples: &Vec<u64>) -> (r:
    FrameTimeStats)
    requires
        samples@.len() <= usize::MAX / 99,
    ensures
        r.fps == match fps {
            Some(rate) => rate,
            None => 0,
        },
        r.last == match last {
            Some(time) => time,
            None => 0,
        },
        r.p99 == if samples@.len() == 0 {
            0
        } else {
            rising(samples@)[slow_place(samples@.len() as int)]
        },
        r.max == if samples@.len() == 0 {
            0
        } else {
            rising(samples@).last()
        },
{
    let sorted = sort_numbers(samples);
    proof {
        stable_sort_keeps_length(samples@, |a: u64, b: u64| a < b);
    }
    let n: usize = sorted.len();
    let (p99, max): (u64, u64) = if n == 0 {
        (0, 0)
    } else {
        let by_share: usize = n * 99 / 100;
        let place: usize = if by_share > n - 1 {
            n - 1
        } else {
            by_share
        };
        (sorted[place], sorted[n - 1])
    };
    FrameTimeStats {
        fps: match fps {
            Some(rate) => rate,
            None => 0,
        },
        last: match last {
            Some(time) => time,
            None => 0,
        },
        p99,
        max,
    }
}

/// A time in milliseconds with two decimals: the nearest, and the even one of two
/// equally near.
pub open spec fn millis_text(time: u64) -> Seq<char> {
    let hundredths = nearest_even(time as nat * 100);
    digits(hundredths / 100) + "."@ + digits(hundredths % 100 / 10) + digits(hundredths % 10)
        + " ms"@
}

/// Writes a time in milliseconds.
pub fn millis(time: u64) -> (r: String)
    requires
        time <= u64::MAX / 100,
    ensures
        r@ == millis_text(time),
{
    let hundredths: u64 = round_even(time * 100);
    let whole = decimal(hundredths / 100);
    let tens = decimal(hundredths % 100 / 10);
    let ones = decimal(hundredths % 10);
    let mut text = concat3(whole.as_str(), ".", tens.as_str());
    text.append(ones.as_str());
    text.append(" ms");
    text
}

/// What the server tells of the world around the player.
pub struct PerfStatsSnapshot {
    pub player_chunk_x: i32,
    pub player_chunk_z: i32,
    pub classification: String,
    pub loaded_chunks: u32,
    pub live_nodes: u32,
    pub aoi_visible_nodes: u32,
    pub pending_regrows: u32,
}

/// One line of the box.
pub struct PerfRow {
    pub name: String,
    pub value: String,
}

/// The lines as texts.
pub open spec fn row_texts(rows: Seq<PerfRow>) -> Seq<(Seq<char>, Seq<char>)> {
    rows.map_values(|row: PerfRow| (row.name@, row.value@))
}

/// The lines about the frames.
pub open spec fn frame_rows(stats: FrameTimeStats) -> Seq<(Seq<char>, Seq<char>)> {
    seq![
        ("FPS"@, digits(nearest_even(stats.fps as nat))),
        ("Frame"@, millis_text(stats.last)),
        ("p99 frame"@, millis_text(stats.p99)),
        ("max frame"@, millis_text(stats.max)),
    ]
}

/// The line about the meshes, once both counts are known.
pub open spec fn mesh_rows(total: Option<u32>, drawn: Option<u32>) -> Seq<(Seq<char>, Seq<char>)> {
    match (total, drawn) {
        (Some(all), Some(seen)) => seq![
            ("Meshes"@, digits(seen as nat) + " drawn / "@ + digits(all as nat)),
        ],
        _ => Seq::empty(),
    }
}

/// The lines about the world, once the server has told of it.
pub open spec fn world_rows(stats: Option<&PerfStatsSnapshot>) -> Seq<(Seq<char>, Seq<char>)> {
    match stats {
        Some(world) => seq![
            (
                "Chunk"@,
                "("@ + signed_digits(world.player_chunk_x as int) + ", "@ + signed_digits(
                    world.player_chunk_z as int,
                ) + ") "@ + world.classification@,
            ),
            ("Loaded"@, digits(world.loaded_chunks as nat)),
            ("Live nodes"@, digits(world.live_nodes as nat)),
            ("Visible"@, digits(world.aoi_visible_nodes as nat)),
            ("Regrow queue"@, digits(world.pending_regrows as nat)),
        ],
        None => Seq::empty(),
    }
}

/// What the box shows.
pub struct PerfBox {
    pub rows: Vec<PerfRow>,
    /// The hint that stands in for the world until the server has told of it.
    pub waiting: Option<String>,
}

fn push_row(rows: &mut Vec<PerfRow>, name: &str, value: String)
    ensures
        row_texts(final(rows)@) == row_texts(old(rows)@).push((name@, value@)),
{
    let ghost before = rows@;
    rows.push(PerfRow { name: name.to_owned(), value });
    proof {
        assert(row_texts(rows@) =~= row_texts(before).push((name@, value@)));
    }
}

/// Draws up the box.
pub fn perf_box(
    frame: FrameTimeStats,
    mesh_total: Option<u32>,
    mesh_drawn: Option<u32>,
    world: Option<&PerfStatsSnapshot>,
) -> (r: PerfBox)
    requires
        frame.last <= u64::MAX / 100,
        frame.p99 <= u64::MAX / 100,
        frame.max <= u64::MAX / 100,
    ensures
        row_texts(r.rows@) == frame_rows(frame) + mesh_rows(mesh_total, mesh_drawn) + world_rows(
            world,
        ),
        r.waiting is Some == (world is None),
        r.waiting matches Some(hint) ==> hint@ == "waiting for server\u{2026}"@,
{
    let mut rows: Vec<PerfRow> = Vec::new();
    push_row(&mut rows, "FPS", decimal(round_even(frame.fps)));
    push_row(&mut rows, "Frame", millis(frame.last));
    push_row(&mut rows, "p99 frame", millis(frame.p99));
    push_row(&mut rows, "max frame", millis(frame.max));
    proof {
        assert(row_texts(rows@) =~= frame_rows(frame));
    }
    if let Some(all) = mesh_total {
        if let Some(seen) = mesh_drawn {
            let drawn = decimal(seen as u64);
            let total = decimal(all as u64);
            push_row(&mut rows, "Meshes", concat3(drawn.as_str(), " drawn / ", total.as_str()));
        }
    }
    proof {
        assert(row_texts(rows@) =~= frame_rows(frame) + mesh_rows(mesh_total, mesh_drawn));
    }
    let ghost before = row_texts(rows@);
    let mut waiting: Option<String> = None;
    match world {
        Some(stats) => {
            let x = signed_decimal(stats.player_chunk_x as i64);
            let z = signed_decimal(stats.player_chunk_z as i64);
            let mut chunk = concat3("(", x.as_str(), ", ");
            chunk.append(z.as_str());
            chunk.append(") ");
            chunk.append(stats.classification.as_str());
            push_row(&mut rows, "Chunk", chunk);
            push_row(&mut rows, "Loaded", decimal(stats.loaded_chunks as u64));
            push_row(&mut rows, "Live nodes", decimal(stats.live_nodes as u64));
            push_row(&mut rows, "Visible", decimal(stats.aoi_visible_nodes as u64));
            push_row(&mut rows, "Regrow queue", decimal(stats.pending_regrows as u64));
        },
        None => {
            waiting = Some("waiting for server\u{2026}".to_owned());
        },
    }
    proof {
        assert(row_texts(rows@) =~= before + world_rows(world));
    }
    PerfBox { rows, waiting }
}

/// The slow frame is such that all but a hundredth of the frames stand up to it, and
/// there always is one among any frames.
pub proof fn slow_frame_leaves_a_hundredth(count: int)
    requires
        count > 0,
    ensures
        0 <= slow_place(count) < count,
        100 * slow_place(count) <= 99 * count,
        100 * (count - 1 - slow_place(count)) <= count,
        slow_place(1) == 0,
        slow_place(100) == 99,
{
}

/// The frames are shown from the rate to the slowest, each number under its own name.
pub proof fn frame_lines_tell_their_numbers(stats: FrameTimeStats)
    ensures
        ({
            let rows = frame_rows(stats);
            &&& rows.len() == 4
            &&& rows[0] == ("FPS"@, digits(nearest_even(stats.fps as nat)))
            &&& rows[1].1 == millis_text(stats.last)
            &&& rows[2].1 == millis_text(stats.p99)
            &&& rows[3].1 == millis_text(stats.max)
        }),
{
}

/// The meshes have a line once both counts are known, the drawn before all; the world
/// has five once the server has told of it, in this order.
pub proof fn lines_wait_for_their_numbers(all: u32, seen: u32, world: PerfStatsSnapshot)
    ensures
        mesh_rows(None, Some(seen)).len() == 0,
        mesh_rows(Some(all), None).len() == 0,
        mesh_rows(Some(all), Some(seen)) == seq![
            ("Meshes"@, digits(seen as nat) + " drawn / "@ + digits(all as nat)),
        ],
        world_rows(None).len() == 0,
        world_rows(Some(&world)).len() == 5,
        world_rows(Some(&world))[1].1 == digits(world.loaded_chunks as nat),
        world_rows(Some(&world))[2].1 == digits(world.live_nodes as nat),
        world_rows(Some(&world))[3].1 == digits(world.aoi_visible_nodes as nat),
        world_rows(Some(&world))[4].1 == digits(world.pending_regrows as nat),
        world_rows(Some(&world))[0].1 == "("@ + signed_digits(world.player_chunk_x as int)
            + ", "@ + signed_digits(world.player_chunk_z as int) + ") "@ + world.classification@,
{
}

/// A time reads as its nearest hundredth of a millisecond: the digits before the point
/// and the two behind it make up the rounded number.
pub proof fn times_read_to_the_hundredth(time: u64)
    ensures
        ({
            let hundredths = nearest_even(time as nat * 100);
            let whole = hundredths / 100;
            let tens = hundredths % 100 / 10;
            let ones = hundredths % 10;
            &&& millis_text(time) == digits(whole) + "."@ + digits(tens) + digits(ones) + " ms"@
            &&& 100 * whole + 10 * tens + ones == hundredths
            &&& tens < 10
            &&& ones < 10
            &&& -500 <= 1000 * hundredths - 100 * time <= 500
        }),
{
    written_health_is_the_nearest(time as nat * 100);
}

/// A line reads as its name and its value.
pub proof fn lines_read_name_and_value(rows: Seq<PerfRow>, i: int)
    requires
        0 <= i < rows.len(),
    ensures
        row_texts(rows).len() == rows.len(),
        row_texts(rows)[i].0 == rows[i].name@,
        row_texts(rows)[i].1 == rows[i].value@,
{
}

} // verus!
