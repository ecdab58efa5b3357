//! The cards of the crafting queue.
use std::collections::HashMap;

use ashwend_client::crafting::queue::{
    CraftingJob, ProgressBaseline, QUEUE_VISIBLE_CARDS, baseline_from, crafting_queue_hud,
    queue_card_alpha, smoothed_fraction,
};
use ashwend_client::fraction::Fraction;

const TICK_RATE: u32 = 20;

fn job(job_id: u64, progress_ticks: u32, total_ticks: u32) -> CraftingJob {
    CraftingJob {
        job_id,
        recipe_id: "stone_hatchet".to_owned(),
        quantity: 1,
        progress_ticks,
        total_ticks,
    }
}

fn share(fraction: Fraction) -> f64 {
    fraction.part as f64 / fraction.whole as f64
}

fn no_progress() -> HashMap<u64, ProgressBaseline> {
    HashMap::new()
}

#[test]
fn queue_card_alpha_shows_first_three_only() {
    assert_eq!(queue_card_alpha(0), 255);
    assert_eq!(queue_card_alpha(1), 255);
    assert_eq!(queue_card_alpha(2), 255);
    assert_eq!(queue_card_alpha(3), 0);
    assert_eq!(queue_card_alpha(15), 0);
}

#[test]
fn baseline_from_captures_job_progress_and_clock() {
    let baseline = baseline_from(&job(1, 7, 40), 12_500_000);
    assert_eq!(baseline.observed_ticks, 7);
    assert_eq!(baseline.total_ticks, 40);
    assert_eq!(baseline.observed_at, 12_500_000);
}

#[test]
fn smoothed_fraction_queued_jobs_render_at_zero() {
    let mut progress = no_progress();
    let waiting = job(2, 20, 40);
    let fraction = smoothed_fraction(&mut progress, &waiting, 100_000_000, TICK_RATE, false);
    assert_eq!(share(fraction), 0.0);
    assert!(progress.contains_key(&waiting.job_id));
}

#[test]
fn smoothed_fraction_head_anchors_and_advances_with_clock() {
    let mut progress = no_progress();
    let head = job(3, 20, 40);
    let at_anchor = share(smoothed_fraction(&mut progress, &head, 0, TICK_RATE, true));
    assert!((at_anchor - 0.5).abs() < 1e-3);

    let later = share(smoothed_fraction(&mut progress, &head, 1_000_000, TICK_RATE, true));
    assert!(later > at_anchor);
    assert!(later <= 1.0);
}

#[test]
fn smoothed_fraction_zero_total_is_full() {
    let mut progress = no_progress();
    assert_eq!(
        share(smoothed_fraction(&mut progress, &job(4, 0, 0), 5_000_000, TICK_RATE, true)),
        1.0
    );
}

#[test]
fn smoothed_fraction_clamps_at_one() {
    let mut progress = no_progress();
    let done = job(5, 40, 40);
    let fraction = smoothed_fraction(&mut progress, &done, 1_000_000_000, TICK_RATE, true);
    assert_eq!(share(fraction), 1.0);
}

#[test]
fn smoothed_fraction_rebases_when_server_advances() {
    let mut progress = no_progress();
    smoothed_fraction(&mut progress, &job(6, 10, 40), 0, TICK_RATE, true);
    let second = job(6, 30, 40);
    smoothed_fraction(&mut progress, &second, 0, TICK_RATE, true);
    let baseline = progress.get(&second.job_id).expect("baseline");
    assert_eq!(baseline.observed_ticks, 30);
}

#[test]
fn a_bar_runs_on_exactly_with_the_clock() {
    let mut progress = no_progress();
    let head = job(8, 10, 40);
    smoothed_fraction(&mut progress, &head, 0, TICK_RATE, true);
    // Half a second at twenty ticks per second is ten more ticks of forty.
    let fraction = smoothed_fraction(&mut progress, &head, 500_000, TICK_RATE, true);
    assert_eq!(fraction.part * 2, fraction.whole);
}

#[test]
fn hud_clears_progress_when_no_jobs() {
    let mut progress = no_progress();
    progress.insert(99, baseline_from(&job(99, 1, 2), 0));
    let hud = crafting_queue_hud(
        &vec![],
        &vec![],
        &mut progress,
        Some(&vec![]),
        0,
        TICK_RATE,
        &vec![],
    );
    assert!(hud.is_none());
    assert!(progress.is_empty());
}

#[test]
fn hud_renders_cards_and_overflow_bar() {
    let mut progress = no_progress();
    let jobs: Vec<CraftingJob> = (0..5).map(|i| job(i, 0, 40)).collect();
    let hud = crafting_queue_hud(
        &vec![],
        &vec![],
        &mut progress,
        Some(&jobs),
        0,
        TICK_RATE,
        &vec![false, true, true],
    )
    .unwrap();
    assert_eq!(hud.cards.len(), QUEUE_VISIBLE_CARDS);
    assert_eq!(hud.overflow.as_deref(), Some("+2 more queued"));
    assert_eq!(progress.len(), QUEUE_VISIBLE_CARDS);
    assert_eq!(hud.cancel, Some(2));
}

#[test]
fn one_hidden_job_is_counted() {
    let mut progress = no_progress();
    let jobs: Vec<CraftingJob> = (0..4).map(|i| job(i, 0, 40)).collect();
    let hud = crafting_queue_hud(
        &vec![],
        &vec![],
        &mut progress,
        Some(&jobs),
        0,
        TICK_RATE,
        &vec![false, false, false],
    )
    .unwrap();
    assert_eq!(hud.overflow.as_deref(), Some("+1 more queued"));
    assert_eq!(hud.cancel, None);
}

#[test]
fn hud_drops_baselines_for_jobs_that_left_queue() {
    let mut progress = no_progress();
    progress.insert(404, baseline_from(&job(404, 1, 2), 0));
    crafting_queue_hud(
        &vec![],
        &vec![],
        &mut progress,
        Some(&vec![job(0, 0, 40)]),
        0,
        TICK_RATE,
        &vec![false],
    );
    assert!(!progress.contains_key(&404));
    assert!(progress.contains_key(&0));
}
