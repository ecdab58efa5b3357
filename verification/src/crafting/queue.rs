//! The cards of the crafting queue. Their bars run on between two reports of the
//! server, from the last observed progress at the server's pace.
use std::collections::HashMap;
use vstd::prelude::*;
use crate::color::{Rgba, opaque, solid};
use crate::crafting::recipes::{
    RecipeDefinition, first_recipe_of_the_id_is_found, recipe_definition, recipe_of,
};
use crate::fraction::Fraction;
use crate::items::{ItemDefinition, first_row_of_the_id_is_found, item_definition, item_of};
use crate::text::{concat3, decimal, digits, opt_text};

verus! {

broadcast use vstd::std_specs::hash::group_hash_axioms;

/// The cards that are drawn; deeper jobs are only counted.
pub const QUEUE_VISIBLE_CARDS: usize = 3;

/// Microseconds in a second.
pub const SECOND: u64 = 1_000_000;

/// One job of the queue.
pub struct CraftingJob {
    pub job_id: u64,
    pub recipe_id: String,
    pub quantity: u16,
    pub progress_ticks: u32,
    pub total_ticks: u32,
}

/// The progress of a job when it was last reported, and when that was, in
/// microseconds.
#[derive(Clone, Copy, Debug, PartialEq, Eq, Structural)]
pub struct ProgressBaseline {
    pub observed_ticks: u32,
    pub total_ticks: u32,
    pub observed_at: u64,
}

/// The baseline of a job that is reported now.
pub open spec fn reported(job: CraftingJob, now: u64) -> ProgressBaseline {
    ProgressBaseline {
        observed_ticks: job.progress_ticks,
        total_ticks: job.total_ticks,
        observed_at: now,
    }
}

/// Takes the baseline of a job that is reported now.
pub fn baseline_from(job: &CraftingJob, now: u64) -> (r: ProgressBaseline)
    ensures
        r == reported(*job, now),
{
    ProgressBaseline {
        observed_ticks: job.progress_ticks,
        total_ticks: job.total_ticks,
        observed_at: now,
    }
}

/// The baseline of the job in work: the known one while the report has not
/// changed, and a new one once it has.
pub open spec fn anchored(
    progress: Map<u64, ProgressBaseline>,
    job: CraftingJob,
    now: u64,
) -> ProgressBaseline {
    if progress.contains_key(job.job_id) && progress[job.job_id].observed_ticks
        == job.progress_ticks && progress[job.job_id].total_ticks == job.total_ticks {
        progress[job.job_id]
    } else {
        reported(job, now)
    }
}

/// The microseconds since a report.
pub open spec fn passed_since(baseline: ProgressBaseline, now: u64) -> int {
    if now > baseline.observed_at {
        now - baseline.observed_at
    } else {
        0
    }
}

/// The share of a job in work that is done, projected from its baseline at the
/// server's pace in ticks per second and never beyond the whole. A job without
/// any work is done.
pub open spec fn projected(baseline: ProgressBaseline, now: u64, tick_rate: u32) -> Fraction {
    if baseline.total_ticks == 0 {
        Fraction { part: 1, whole: 1 }
    } else {
        let done = baseline.observed_ticks * SECOND + passed_since(baseline, now) * tick_rate;
        let whole = baseline.total_ticks * SECOND;
        Fraction {
            part: (if done > whole {
                whole
            } else {
                done
            }) as u128,
            whole: whole as u128,
        }
    }
}

/// What a job's card shows as done, and the baseline that is kept for it.
pub open spec fn card_share(
    progress: Map<u64, ProgressBaseline>,
    job: CraftingJob,
    now: u64,
    tick_rate: u32,
    is_head: bool,
) -> Fraction {
    if is_head {
        projected(anchored(progress, job, now), now, tick_rate)
    } else {
        Fraction { part: 0, whole: 1 }
    }
}

/// Computes the share of a job in work.
fn project(baseline: ProgressBaseline, now: u64, tick_rate: u32) -> (r: Fraction)
    ensures
        r == projected(baseline, now, tick_rate),
        r.valid(),
        r.whole <= u32::MAX * SECOND,
{
    if baseline.total_ticks == 0 {
        return Fraction { part: 1, whole: 1 };
    }
    let passed: u64 = if now > baseline.observed_at {
        now - baseline.observed_at
    } else {
        0
    };
    proof {
        assert(passed * tick_rate <= 0xffff_ffff_ffff_ffff * 0xffff_ffff) by (nonlinear_arith)
            requires
                passed <= 0xffff_ffff_ffff_ffff,
                tick_rate <= 0xffff_ffff,
        ;
        assert(passed * tick_rate >= 0) by (nonlinear_arith);
        assert(0 <= baseline.observed_ticks * SECOND <= 0xffff_ffff * 1_000_000);
        assert(0 < baseline.total_ticks * SECOND <= 0xffff_ffff * 1_000_000);
    }
    let done: u128 = baseline.observed_ticks as u128 * SECOND as u128 + passed as u128
        * tick_rate as u128;
    let whole: u128 = baseline.total_ticks as u128 * SECOND as u128;
    Fraction {
        part: if done > whole {
            whole
        } else {
            done
        },
        whole,
    }
}

/// Finds what a job's card shows as done. Only the job in work advances; the
/// others keep a fresh baseline for when their turn comes.
pub fn smoothed_fraction(
    progress: &mut HashMap<u64, ProgressBaseline>,
    job: &CraftingJob,
    now: u64,
    tick_rate: u32,
    is_head: bool,
) -> (r: Fraction)
    ensures
        r == card_share(old(progress)@, *job, now, tick_rate, is_head),
        r.valid(),
        r.whole <= u32::MAX * SECOND,
        final(progress)@ == old(progress)@.insert(
            job.job_id,
            if is_head {
                anchored(old(progress)@, *job, now)
            } else {
                reported(*job, now)
            },
        ),
{
    if !is_head {
        progress.insert(job.job_id, baseline_from(job, now));
        return Fraction { part: 0, whole: 1 };
    }
    let known: Option<ProgressBaseline> = match progress.get(&job.job_id) {
        Some(baseline) => if baseline.observed_ticks == job.progress_ticks && baseline.total_ticks
            == job.total_ticks {
            Some(*baseline)
        } else {
            None
        },
        None => None,
    };
    let baseline = match known {
        Some(baseline) => baseline,
        None => baseline_from(job, now),
    };
    progress.insert(job.job_id, baseline);
    project(baseline, now, tick_rate)
}

/// The opacity of the card at a place of the queue: cards of the window are
/// drawn in full, and deeper ones not at all.
pub fn queue_card_alpha(index: usize) -> (r: u8)
    ensures
        r == if index < QUEUE_VISIBLE_CARDS {
            255int
        } else {
            0
        },
{
    if index < QUEUE_VISIBLE_CARDS {
        255
    } else {
        0
    }
}

/// Whether a job is in the queue.
pub open spec fn queued(jobs: Seq<CraftingJob>, id: u64) -> bool {
    exists|i: int| 0 <= i < jobs.len() && #[trigger] jobs[i].job_id == id
}

/// The baselines of the jobs that are still in the queue.
pub open spec fn kept(progress: Map<u64, ProgressBaseline>, jobs: Seq<CraftingJob>) -> Map<
    u64,
    ProgressBaseline,
> {
    progress.restrict(Set::new(|id: u64| queued(jobs, id)))
}

/// Forgets the baselines of jobs that left the queue.
fn forget_finished(progress: &mut HashMap<u64, ProgressBaseline>, jobs: &Vec<CraftingJob>)
    ensures
        final(progress)@ == kept(old(progress)@, jobs@),
{
    let mut live: HashMap<u64, ProgressBaseline> = HashMap::new();
    proof {
        assert(live@ =~= kept(progress@, jobs@.take(0)));
    }
    let mut i: usize = 0;
    while i < jobs.len()
        invariant
            i <= jobs.len(),
            live@ == kept(progress@, jobs@.take(i as int)),
        decreases jobs.len() - i,
    {
        let id: u64 = jobs[i].job_id;
        let ghost before = live@;
        if let Some(baseline) = progress.get(&id) {
            live.insert(id, *baseline);
        }
        proof {
            let shorter = jobs@.take(i as int);
            let longer = jobs@.take(i + 1);
            assert forall|k: u64| queued(longer, k) == (queued(shorter, k) || k == id) by {
                if queued(longer, k) {
                    let at = choose|at: int| 0 <= at < longer.len() && #[trigger] longer[at].job_id == k;
                    if at < shorter.len() {
                        assert(shorter[at].job_id == k);
                    }
                }
                if queued(shorter, k) {
                    let at = choose|at: int|
                        0 <= at < shorter.len() && #[trigger] shorter[at].job_id == k;
                    assert(longer[at].job_id == k);
                }
                if k == id {
                    assert(longer[i as int].job_id == k);
                }
            }
            assert(live@ =~= kept(progress@, longer));
        }
        i = i + 1;
    }
    proof {
        assert(jobs@.take(i as int) =~= jobs@);
    }
    *progress = live;
}

/// The baselines after the cards of the first jobs were drawn.
pub open spec fn followed(
    progress: Map<u64, ProgressBaseline>,
    drawn: Seq<CraftingJob>,
    now: u64,
) -> Map<u64, ProgressBaseline>
    decreases drawn.len(),
{
    if drawn.len() == 0 {
        progress
    } else if drawn.len() == 1 {
        progress.insert(drawn[0].job_id, anchored(progress, drawn[0], now))
    } else {
        followed(progress, drawn.drop_last(), now).insert(
            drawn.last().job_id,
            reported(drawn.last(), now),
        )
    }
}

/// What a card shows.
pub struct QueueCard {
    pub job_id: u64,
    pub title: String,
    pub tint: Rgba,
    pub status: String,
    pub share: Fraction,
}

/// The title of a card: the recipe's name, and how many of it.
pub open spec fn card_title(recipes: Seq<RecipeDefinition>, job: CraftingJob) -> Seq<char> {
    let name = match recipe_of(recipes, job.recipe_id@) {
        Some(recipe) => recipe.name@,
        None => "Unknown recipe"@,
    };
    if job.quantity > 1 {
        name + " \u{d7}"@ + digits(job.quantity as nat)
    } else {
        name
    }
}

/// The dot of a card: the colour of what is made.
pub open spec fn card_tint(
    recipes: Seq<RecipeDefinition>,
    items: Seq<ItemDefinition>,
    job: CraftingJob,
) -> Rgba {
    match recipe_of(recipes, job.recipe_id@) {
        Some(recipe) => match item_of(items, recipe.output_item@) {
            Some(definition) => solid(definition.tint.r, definition.tint.g, definition.tint.b),
            None => solid(146, 158, 171),
        },
        None => solid(146, 158, 171),
    }
}

/// A percentage, flush right in three places.
pub open spec fn flush_right(percent: nat) -> Seq<char> {
    if percent < 10 {
        "  "@ + digits(percent)
    } else if percent < 100 {
        " "@ + digits(percent)
    } else {
        digits(percent)
    }
}

/// The status of a card.
pub open spec fn card_status(is_head: bool, share: Fraction) -> Seq<char> {
    if is_head {
        "Crafting\u{2026} "@ + flush_right(share.percent()) + "%"@
    } else {
        "Queued"@
    }
}

/// The card shows the given job and share.
pub open spec fn shows_job(
    card: QueueCard,
    recipes: Seq<RecipeDefinition>,
    items: Seq<ItemDefinition>,
    job: CraftingJob,
    is_head: bool,
    share: Fraction,
) -> bool {
    &&& card.job_id == job.job_id
    &&& card.title@ == card_title(recipes, job)
    &&& card.tint == card_tint(recipes, items, job)
    &&& card.status@ == card_status(is_head, share)
    &&& card.share == share
}

/// Rounds a share to percent.
fn percent_of(share: Fraction) -> (r: u64)
    requires
        share.valid(),
        share.whole <= u32::MAX * SECOND,
    ensures
        r == share.percent(),
        r <= 100,
{
    let scaled: u128 = 100 * share.part;
    let floor: u128 = scaled / share.whole;
    let rest: u128 = scaled % share.whole;
    proof {
        let whole = share.whole as int;
        assert(scaled as int == whole * (scaled as int / whole) + scaled as int % whole)
            by (nonlinear_arith)
            requires
                whole > 0,
        ;
        assert(floor <= 100 && (floor == 100 ==> rest == 0)) by (nonlinear_arith)
            requires
                scaled as int == whole * floor + rest,
                scaled <= 100 * whole,
                whole > 0,
                0 <= rest,
        ;
    }
    if 2 * rest < share.whole || (2 * rest == share.whole && floor % 2 == 0) {
        floor as u64
    } else {
        floor as u64 + 1
    }
}

/// Draws up a card.
pub fn draw_queue_card(
    recipes: &Vec<RecipeDefinition>,
    items: &Vec<ItemDefinition>,
    job: &CraftingJob,
    is_head: bool,
    share: Fraction,
) -> (r: QueueCard)
    requires
        share.valid(),
        share.whole <= u32::MAX * SECOND,
    ensures
        shows_job(r, recipes@, items@, *job, is_head, share),
{
    let recipe = recipe_definition(recipes, job.recipe_id.as_str());
    let mut title: String = match recipe {
        Some(recipe) => recipe.name.clone(),
        None => "Unknown recipe".to_owned(),
    };
    if job.quantity > 1 {
        let count = decimal(job.quantity as u64);
        title.append(" \u{d7}");
        title.append(count.as_str());
    }
    let tint: Rgba = match recipe {
        Some(recipe) => match item_definition(items, recipe.output_item.as_str()) {
            Some(definition) => opaque(definition.tint.r, definition.tint.g, definition.tint.b),
            None => opaque(146, 158, 171),
        },
        None => opaque(146, 158, 171),
    };
    let status: String = if is_head {
        let percent: u64 = percent_of(share);
        let mut text = "Crafting\u{2026} ".to_owned();
        let number = decimal(percent);
        if percent < 10 {
            text.append("  ");
        } else if percent < 100 {
            text.append(" ");
        }
        text.append(number.as_str());
        proof {
            assert(text@ =~= "Crafting\u{2026} "@ + flush_right(percent as nat));
        }
        text.append("%");
        text
    } else {
        "Queued".to_owned()
    };
    QueueCard { job_id: job.job_id, title, tint, status, share }
}

/// The job whose card was told to cancel; the last one where several were.
pub open spec fn cancel_target(drawn: Seq<CraftingJob>, clicks: Seq<bool>) -> Option<u64>
    decreases drawn.len(),
{
    if drawn.len() == 0 {
        None
    } else if drawn.len() <= clicks.len() && clicks[drawn.len() - 1] {
        Some(drawn.last().job_id)
    } else {
        cancel_target(drawn.drop_last(), clicks)
    }
}

/// What a frame of the queue shows and asks for.
pub struct QueueHud {
    pub cards: Vec<QueueCard>,
    /// How many jobs are not drawn.
    pub overflow: Option<String>,
    /// The job to cancel.
    pub cancel: Option<u64>,
}

/// The jobs that are drawn.
pub open spec fn drawn_jobs(jobs: Seq<CraftingJob>) -> Seq<CraftingJob> {
    if jobs.len() < QUEUE_VISIBLE_CARDS {
        jobs
    } else {
        jobs.take(QUEUE_VISIBLE_CARDS as int)
    }
}

/// Draws up the queue. Without jobs nothing is drawn and every baseline is
/// forgotten. The clicks tell of each drawn card whether it was told to cancel.
pub fn crafting_queue_hud(
    recipes: &Vec<RecipeDefinition>,
    items: &Vec<ItemDefinition>,
    progress: &mut HashMap<u64, ProgressBaseline>,
    jobs: Option<&Vec<CraftingJob>>,
    now: u64,
    tick_rate: u32,
    clicks: &Vec<bool>,
) -> (r: Option<QueueHud>)
    ensures
        match jobs {
            Some(queue) if queue@.len() > 0 => {
                let drawn = drawn_jobs(queue@);
                let base = kept(old(progress)@, queue@);
                &&& final(progress)@ == followed(base, drawn, now)
                &&& r matches Some(hud)
                &&& hud.cards@.len() == drawn.len()
                &&& forall|i: int|
                    0 <= i < drawn.len() ==> shows_job(
                        #[trigger] hud.cards@[i],
                        recipes@,
                        items@,
                        drawn[i],
                        i == 0,
                        card_share(base, drawn[i], now, tick_rate, i == 0),
                    )
                &&& opt_text(hud.overflow) == if queue@.len() > QUEUE_VISIBLE_CARDS {
                    Some(
                        "+"@ + digits((queue@.len() - QUEUE_VISIBLE_CARDS) as nat)
                            + " more queued"@,
                    )
                } else {
                    None
                }
                &&& hud.cancel == cancel_target(drawn, clicks@)
            },
            _ => r is None && final(progress)@ == Map::<u64, ProgressBaseline>::empty(),
        },
        r is Some <==> jobs is Some && jobs->0@.len() > 0,
        r matches Some(hud) ==> {
            &&& hud.cards@.len() <= 3
            &&& hud.cards@.len() == jobs->0@.len() || hud.cards@.len() == 3
            &&& hud.overflow is Some <==> jobs->0@.len() > 3
            &&& forall|i: int|
                0 <= i < hud.cards@.len() ==> (#[trigger] hud.cards@[i]).job_id
                    == jobs->0@[i].job_id
            &&& forall|i: int|
                0 < i < hud.cards@.len() ==> (#[trigger] hud.cards@[i]).share.part == 0
        },
{
    let queue = match jobs {
        Some(queue) => queue,
        None => {
            *progress = HashMap::new();
            return None;
        },
    };
    if queue.len() == 0 {
        *progress = HashMap::new();
        return None;
    }
    forget_finished(progress, queue);
    let ghost base = progress@;
    let visible: usize = if queue.len() < QUEUE_VISIBLE_CARDS {
        queue.len()
    } else {
        QUEUE_VISIBLE_CARDS
    };
    let ghost drawn = drawn_jobs(queue@);
    proof {
        assert(drawn =~= queue@.take(visible as int));
        assert(drawn.take(0) =~= Seq::empty());
    }
    let mut cards: Vec<QueueCard> = Vec::new();
    let mut cancel: Option<u64> = None;
    let mut i: usize = 0;
    while i < visible
        invariant
            i <= visible <= queue.len(),
            visible == drawn.len(),
            drawn == queue@.take(visible as int),
            progress@ == followed(base, drawn.take(i as int), now),
            cards@.len() == i,
            forall|k: int|
                0 <= k < i ==> shows_job(
                    #[trigger] cards@[k],
                    recipes@,
                    items@,
                    drawn[k],
                    k == 0,
                    card_share(base, drawn[k], now, tick_rate, k == 0),
                ),
            cancel == cancel_target(drawn.take(i as int), clicks@),
        decreases visible - i,
    {
        proof {
            assert(drawn.take(i + 1).drop_last() =~= drawn.take(i as int));
            assert(drawn.take(i + 1).last() == queue@[i as int]);
        }
        let share = smoothed_fraction(progress, &queue[i], now, tick_rate, i == 0);
        cards.push(draw_queue_card(recipes, items, &queue[i], i == 0, share));
        if i < clicks.len() {
            if clicks[i] {
                cancel = Some(queue[i].job_id);
            }
        }
        i = i + 1;
    }
    proof {
        assert(drawn.take(i as int) =~= drawn);
    }
    let overflow: Option<String> = if queue.len() > QUEUE_VISIBLE_CARDS {
        let hidden = decimal((queue.len() - QUEUE_VISIBLE_CARDS) as u64);
        Some(concat3("+", hidden.as_str(), " more queued"))
    } else {
        None
    };
    Some(QueueHud { cards, overflow, cancel })
}

/// The bar of an unchanged job never runs back: later it shows at least as much.
pub proof fn bar_never_runs_back(
    baseline: ProgressBaseline,
    earlier: u64,
    later: u64,
    tick_rate: u32,
)
    requires
        earlier <= later,
    ensures
        projected(baseline, earlier, tick_rate).whole == projected(baseline, later, tick_rate).whole,
        projected(baseline, earlier, tick_rate).part <= projected(baseline, later, tick_rate).part,
{
    let before = passed_since(baseline, earlier);
    let after = passed_since(baseline, later);
    assert(0 <= before * tick_rate <= after * tick_rate) by (nonlinear_arith)
        requires
            0 <= before <= after,
    ;
    assert(0 < baseline.total_ticks * SECOND <= 0xffff_ffff * 1_000_000 || baseline.total_ticks == 0);
    assert(0 <= baseline.observed_ticks * SECOND);
}

/// After a frame only jobs of the queue have baselines.
pub proof fn only_queued_jobs_are_followed(
    progress: Map<u64, ProgressBaseline>,
    jobs: Seq<CraftingJob>,
    now: u64,
    id: u64,
)
    requires
        followed(kept(progress, jobs), drawn_jobs(jobs), now).contains_key(id),
    ensures
        queued(jobs, id),
{
    let drawn = drawn_jobs(jobs);
    assert forall|i: int| 0 <= i < drawn.len() implies queued(jobs, #[trigger] drawn[i].job_id) by {
        assert(jobs[i].job_id == drawn[i].job_id);
    }
    only_known_or_drawn(kept(progress, jobs), drawn, now, id);
}

proof fn only_known_or_drawn(
    progress: Map<u64, ProgressBaseline>,
    drawn: Seq<CraftingJob>,
    now: u64,
    id: u64,
)
    requires
        followed(progress, drawn, now).contains_key(id),
    ensures
        progress.contains_key(id) || queued(drawn, id),
    decreases drawn.len(),
{
    if drawn.len() == 1 {
        assert(drawn[0].job_id == id || progress.contains_key(id));
    } else if drawn.len() > 1 {
        if drawn.last().job_id == id {
            assert(drawn[drawn.len() - 1].job_id == id);
        } else {
            let shorter = drawn.drop_last();
            only_known_or_drawn(progress, shorter, now, id);
            if queued(shorter, id) {
                let at = choose|at: int| 0 <= at < shorter.len() && #[trigger] shorter[at].job_id == id;
                assert(drawn[at].job_id == id);
            }
        }
    }
}

/// A job whose report has not changed keeps its baseline; the first report and every
/// changed one start a new baseline, now.
pub proof fn changed_report_starts_a_new_baseline(
    progress: Map<u64, ProgressBaseline>,
    job: CraftingJob,
    now: u64,
)
    ensures
        ({
            let known = progress[job.job_id];
            let same = progress.contains_key(job.job_id) && known.observed_ticks
                == job.progress_ticks && known.total_ticks == job.total_ticks;
            let base = anchored(progress, job, now);
            &&& base.observed_ticks == job.progress_ticks
            &&& base.total_ticks == job.total_ticks
            &&& same ==> base.observed_at == known.observed_at
            &&& !same ==> base.observed_at == now
        }),
{
}

/// When it is reported a job shows the reported share; from there the bar gains what the
/// server's pace makes of the passed time, until it is full.
pub proof fn bar_runs_at_the_servers_pace(
    baseline: ProgressBaseline,
    earlier: u64,
    later: u64,
    tick_rate: u32,
)
    requires
        baseline.total_ticks > 0,
        baseline.observed_ticks <= baseline.total_ticks,
        baseline.observed_at <= earlier <= later,
    ensures
        ({
            let start = projected(baseline, baseline.observed_at, tick_rate);
            let before = projected(baseline, earlier, tick_rate);
            let after = projected(baseline, later, tick_rate);
            &&& start.part * baseline.total_ticks == baseline.observed_ticks * start.whole
            &&& after.whole == baseline.total_ticks * SECOND
            &&& after.part <= after.whole
            &&& after.part < after.whole ==> after.part - before.part == (later - earlier)
                * tick_rate
            &&& after.part - before.part <= (later - earlier) * tick_rate
        }),
{
    let observed = baseline.observed_ticks as int;
    let total = baseline.total_ticks as int;
    let rate = tick_rate as int;
    let p = earlier - baseline.observed_at;
    let q = later - baseline.observed_at;
    assert(q * rate - p * rate == (q - p) * rate && 0 <= p * rate <= q * rate)
        by (nonlinear_arith)
        requires
            0 <= p <= q,
            0 <= rate,
    ;
    assert(0 * rate == 0) by (nonlinear_arith);
    assert(observed * 1_000_000 * total == observed * (total * 1_000_000)) by (nonlinear_arith);
    assert(passed_since(baseline, baseline.observed_at) == 0);
    assert(passed_since(baseline, earlier) == p);
    assert(passed_since(baseline, later) == q);
    assert(passed_since(baseline, baseline.observed_at) * tick_rate == 0);
    assert(projected(baseline, baseline.observed_at, tick_rate).part == observed * 1_000_000);
}

/// A job without work is done, and a job that waits has not begun.
pub proof fn waiting_jobs_have_not_begun(
    progress: Map<u64, ProgressBaseline>,
    job: CraftingJob,
    now: u64,
    tick_rate: u32,
)
    ensures
        card_share(progress, job, now, tick_rate, false).part == 0,
        card_share(progress, job, now, tick_rate, false).whole > 0,
        job.total_ticks == 0 ==> {
            let share = card_share(progress, job, now, tick_rate, true);
            share.part == share.whole && share.part > 0
        },
{
}

/// The first jobs of the queue are drawn, in its order and never more than the window
/// has room for.
pub proof fn first_jobs_are_drawn(jobs: Seq<CraftingJob>)
    ensures
        drawn_jobs(jobs).is_prefix_of(jobs),
        drawn_jobs(jobs).len() <= QUEUE_VISIBLE_CARDS,
        drawn_jobs(jobs).len() == jobs.len() || drawn_jobs(jobs).len() == QUEUE_VISIBLE_CARDS,
{
}

/// The last clicked card is the one that is cancelled, and without a click none is.
pub proof fn last_clicked_card_is_cancelled(drawn: Seq<CraftingJob>, clicks: Seq<bool>, k: int)
    requires
        0 <= k < drawn.len(),
        k < clicks.len(),
        clicks[k],
        forall|i: int| k < i < drawn.len() && i < clicks.len() ==> !#[trigger] clicks[i],
    ensures
        cancel_target(drawn, clicks) == Some(drawn[k].job_id),
    decreases drawn.len(),
{
    if k < drawn.len() - 1 {
        assert(drawn.drop_last()[k] == drawn[k]);
        last_clicked_card_is_cancelled(drawn.drop_last(), clicks, k);
    }
}

/// Nothing is cancelled without a click.
pub proof fn nothing_is_cancelled_without_a_click(drawn: Seq<CraftingJob>, clicks: Seq<bool>)
    requires
        forall|i: int| 0 <= i < drawn.len() && i < clicks.len() ==> !#[trigger] clicks[i],
    ensures
        cancel_target(drawn, clicks) is None,
    decreases drawn.len(),
{
    if drawn.len() > 0 {
        nothing_is_cancelled_without_a_click(drawn.drop_last(), clicks);
    }
}

/// The baselines of queued jobs stay as they are, and those of others go.
pub proof fn finished_jobs_are_forgotten(
    progress: Map<u64, ProgressBaseline>,
    jobs: Seq<CraftingJob>,
    k: int,
    gone: u64,
)
    requires
        0 <= k < jobs.len(),
        forall|i: int| 0 <= i < jobs.len() ==> (#[trigger] jobs[i]).job_id != gone,
    ensures
        kept(progress, jobs).contains_key(jobs[k].job_id) == progress.contains_key(jobs[k].job_id),
        progress.contains_key(jobs[k].job_id) ==> kept(progress, jobs)[jobs[k].job_id]
            == progress[jobs[k].job_id],
        !kept(progress, jobs).contains_key(gone),
{
    assert(queued(jobs, jobs[k].job_id));
}

/// After the cards are drawn the job in work has the baseline its bar ran from, each
/// other drawn job a fresh one, and what was not drawn keeps its own.
pub proof fn drawn_jobs_are_followed(
    progress: Map<u64, ProgressBaseline>,
    drawn: Seq<CraftingJob>,
    now: u64,
    k: int,
    other: u64,
)
    requires
        0 <= k < drawn.len(),
        forall|i: int, j: int|
            0 <= i < j < drawn.len() ==> (#[trigger] drawn[i]).job_id != (
            #[trigger] drawn[j]).job_id,
        forall|i: int| 0 <= i < drawn.len() ==> (#[trigger] drawn[i]).job_id != other,
    ensures
        ({
            let after = followed(progress, drawn, now);
            &&& after.contains_key(drawn[k].job_id)
            &&& k == 0 ==> after[drawn[0].job_id] == anchored(progress, drawn[0], now)
            &&& k > 0 ==> after[drawn[k].job_id] == (ProgressBaseline {
                observed_ticks: drawn[k].progress_ticks,
                total_ticks: drawn[k].total_ticks,
                observed_at: now,
            })
            &&& after.contains_key(other) == progress.contains_key(other)
            &&& progress.contains_key(other) ==> after[other] == progress[other]
        }),
    decreases drawn.len(),
{
    if drawn.len() > 1 {
        let shorter = drawn.drop_last();
        assert forall|i: int, j: int| 0 <= i < j < shorter.len() implies (
        #[trigger] shorter[i]).job_id != (#[trigger] shorter[j]).job_id by {
            assert(drawn[i].job_id != drawn[j].job_id);
        }
        assert forall|i: int| 0 <= i < shorter.len() implies (#[trigger] shorter[i]).job_id
            != other by {
            assert(drawn[i].job_id != other);
        }
        assert(drawn[drawn.len() - 1].job_id != other);
        if k < shorter.len() {
            assert(shorter[k] == drawn[k]);
            assert(shorter[0] == drawn[0]);
            drawn_jobs_are_followed(progress, shorter, now, k, other);
            assert(drawn[k].job_id != drawn[drawn.len() - 1].job_id);
        } else {
            drawn_jobs_are_followed(progress, shorter, now, 0, other);
        }
    } else {
        assert(drawn[0].job_id != other);
    }
}

/// A card goes by the name of its recipe, with the count behind it where there is more
/// than one, and has the colour of what the recipe makes.
pub proof fn card_goes_by_its_recipe(
    recipes: Seq<RecipeDefinition>,
    items: Seq<ItemDefinition>,
    job: CraftingJob,
    k: int,
    m: int,
)
    requires
        0 <= k < recipes.len(),
        recipes[k].id@ == job.recipe_id@,
        forall|i: int| 0 <= i < k ==> (#[trigger] recipes[i]).id@ != job.recipe_id@,
        0 <= m < items.len(),
        items[m].id@ == recipes[k].output_item@,
        forall|i: int| 0 <= i < m ==> (#[trigger] items[i]).id@ != recipes[k].output_item@,
    ensures
        job.quantity <= 1 ==> card_title(recipes, job) == recipes[k].name@,
        job.quantity > 1 ==> card_title(recipes, job) == recipes[k].name@ + " \u{d7}"@ + digits(
            job.quantity as nat,
        ),
        card_tint(recipes, items, job) == (Rgba {
            r: items[m].tint.r,
            g: items[m].tint.g,
            b: items[m].tint.b,
            a: 255,
        }),
{
    first_recipe_of_the_id_is_found(recipes, job.recipe_id@, k);
    first_row_of_the_id_is_found(items, recipes[k].output_item@, m);
}

/// The percentage takes three places whatever it is, so that the text does not jump,
/// and stands at their right end.
pub proof fn percentage_takes_three_places(percent: nat)
    requires
        percent <= 100,
    ensures
        flush_right(percent).len() == 3,
        digits(percent).len() <= 3,
        flush_right(percent).skip(3 - digits(percent).len()) == digits(percent),
        percent == 100 ==> flush_right(percent) == digits(100),
{
    reveal_with_fuel(digits, 4);
    reveal_strlit("  ");
    reveal_strlit(" ");
    assert(flush_right(percent).skip(3 - digits(percent).len()) =~= digits(percent));
}

/// Only the job in work tells a percentage: the rounded share of its bar.
pub proof fn only_the_job_in_work_tells_a_percentage(share: Fraction)
    ensures
        card_status(true, share) == "Crafting\u{2026} "@ + flush_right(share.percent()) + "%"@,
        card_status(false, share) == "Queued"@,
{
}

/// A job whose recipe is not known, or makes what is not known, has a grey dot, and one
/// whose recipe is not known has no name either.
pub proof fn unknown_recipes_are_grey(
    recipes: Seq<RecipeDefinition>,
    items: Seq<ItemDefinition>,
    job: CraftingJob,
)
    ensures
        recipe_of(recipes, job.recipe_id@) is None ==> card_tint(recipes, items, job) == (Rgba {
            r: 146,
            g: 158,
            b: 171,
            a: 255,
        }) && (job.quantity <= 1 ==> card_title(recipes, job) == "Unknown recipe"@),
        recipe_of(recipes, job.recipe_id@) matches Some(recipe) && item_of(
            items,
            recipe.output_item@,
        ) is None ==> card_tint(recipes, items, job) == (Rgba { r: 146, g: 158, b: 171, a: 255 }),
{
}

/// A card stands for its job: its number, its title, its colour, its status and its bar
/// are those of the job.
pub proof fn cards_stand_for_their_jobs(
    card: QueueCard,
    recipes: Seq<RecipeDefinition>,
    items: Seq<ItemDefinition>,
    job: CraftingJob,
    is_head: bool,
    share: Fraction,
)
    requires
        shows_job(card, recipes, items, job, is_head, share),
    ensures
        card.job_id == job.job_id,
        card.title@ == card_title(recipes, job),
        card.tint == card_tint(recipes, items, job),
        card.share == share,
        !is_head ==> card.status@ == "Queued"@,
        is_head ==> card.status@ == "Crafting\u{2026} "@ + flush_right(share.percent()) + "%"@,
{
}

} // verus!
