use dmm_game_bot::bot::cycle::OffsetDateTime;
use dmm_game_bot::bot::sequence::{
    detect_rows, effective_dry_run, effective_max_cycles, finish_step, loop_decision, plan_click, plan_step,
    search_settings, should_propagate_capture_failure, Capture, ClickSearch, CycleRun, GuardCheck, GuardOutcome,
    LoopDecision, OnMiss, SearchAction, SearchSettings, StepPlan, POLL_SLEEP_FLOOR_MS,
};
use dmm_game_bot::config::{
    CaptureConfig, Config, InputConfig, LoopConfig, PollConfig, SafetyConfig, StopConfig, WindowConfig,
};
use dmm_game_bot::domain::step::{Step, StepLog};
use dmm_game_bot::error::BotError;
use dmm_game_bot::platform::window::WindowRect;
use dmm_game_bot::vision::coord_cache::{CachedCenter, CoordCache};
use dmm_game_bot::vision::matcher::{GrayFrame, Match, Rect};
use dmm_game_bot::vision::template::Template;

#[test]
fn capture_retry_holds_until_threshold() {
    let mut failures = 0u32;
    assert!(!should_propagate_capture_failure(&mut failures, 3));
    assert_eq!(failures, 1);
    assert!(!should_propagate_capture_failure(&mut failures, 3));
    assert_eq!(failures, 2);
    assert!(should_propagate_capture_failure(&mut failures, 3));
    assert_eq!(failures, 3);
}

#[test]
fn capture_retry_resets_after_success_simulated() {
    let mut failures = 0u32;
    assert!(!should_propagate_capture_failure(&mut failures, 3));
    assert!(!should_propagate_capture_failure(&mut failures, 3));
    failures = 0;
    assert!(!should_propagate_capture_failure(&mut failures, 3));
    assert!(!should_propagate_capture_failure(&mut failures, 3));
    assert!(should_propagate_capture_failure(&mut failures, 3));
}

#[test]
fn capture_retry_threshold_one_is_legacy_behavior() {
    let mut failures = 0u32;
    assert!(should_propagate_capture_failure(&mut failures, 1));
    assert_eq!(failures, 1);
}

#[test]
fn capture_retry_threshold_zero_normalizes_to_one() {
    let mut failures = 0u32;
    assert!(should_propagate_capture_failure(&mut failures, 0));
    assert_eq!(failures, 1);
}

#[test]
fn capture_retry_counter_saturates_at_u32_max() {
    let mut failures = u32::MAX;
    assert!(should_propagate_capture_failure(&mut failures, 3));
    assert_eq!(failures, u32::MAX);
}

// --- helpers ---

fn textured_frame(w: u32, h: u32) -> GrayFrame {
    let mut pixels = Vec::with_capacity((w * h) as usize);
    for y in 0..h {
        for x in 0..w {
            let v = (x * 37 + y * 91 + (x * y) % 13 * 17) % 251;
            pixels.push(v as u8);
        }
    }
    GrayFrame { width: w, height: h, pixels }
}

fn crop_template(frame: &GrayFrame, name: &str, x: u32, y: u32, w: u32, h: u32, threshold: f32) -> Template {
    let mut pixels = Vec::new();
    for yy in y..y + h {
        for xx in x..x + w {
            pixels.push(frame.pixels[(yy * frame.width + xx) as usize]);
        }
    }
    Template { name: name.to_string(), pixels, width: w, height: h, threshold: threshold.to_bits(), roi: None }
}

fn blank_frame(w: u32, h: u32) -> GrayFrame {
    GrayFrame { width: w, height: h, pixels: vec![0u8; (w * h) as usize] }
}

fn settings(stability: u32, cache: bool) -> SearchSettings {
    SearchSettings {
        stability_required: stability,
        position_tol_px: 6,
        score_tol: 0.03f32.to_bits(),
        capture_retry_threshold: 3,
        cache_enabled: cache,
        cache_pad_px: 4,
        poll_ms: 1500,
        stability_poll_ms: 10,
    }
}

fn full(frame: &GrayFrame) -> Rect {
    Rect { x: 0, y: 0, w: frame.width, h: frame.height }
}

fn base_config() -> Config {
    Config {
        window: WindowConfig { title_pattern: "x".to_string() },
        capture: CaptureConfig::default(),
        loop_: LoopConfig::default(),
        stop: StopConfig::default(),
        input: InputConfig::default(),
        safety: SafetyConfig::default(),
        templates: Vec::new(),
        templates_dir: "templates".to_string(),
    }
}

fn at(ts: i64, nanos: u32) -> OffsetDateTime {
    OffsetDateTime { timestamp: ts, nanos, offset_secs: 9 * 3600 }
}

// --- step plans and step logs ---

#[test]
fn plan_of_each_step_follows_poll_config() {
    let p = PollConfig::default();
    assert_eq!(plan_step(Step::ReissekiGuard, &p), StepPlan::Guard { timeout_ms: 60_000 });
    assert_eq!(
        plan_step(Step::ApPlus, &p),
        StepPlan::Click { on_miss: OnMiss::Fail, timeout_ms: 60_000, poll_ms: 1500, min_wait_ms: 0 }
    );
    assert_eq!(
        plan_step(Step::ToubatsuStart, &p),
        StepPlan::Click { on_miss: OnMiss::Fail, timeout_ms: 60_000, poll_ms: 1500, min_wait_ms: 1_500_000 }
    );
    assert_eq!(
        plan_step(Step::Next1, &p),
        StepPlan::Click { on_miss: OnMiss::Fail, timeout_ms: 2_700_000, poll_ms: 7_000, min_wait_ms: 3_000 }
    );
    assert_eq!(
        plan_step(Step::Next2, &p),
        StepPlan::Click { on_miss: OnMiss::Fail, timeout_ms: 60_000, poll_ms: 1500, min_wait_ms: 2_000 }
    );
    assert_eq!(
        plan_step(Step::Close, &p),
        StepPlan::Click { on_miss: OnMiss::Skip, timeout_ms: 30_000, poll_ms: 1500, min_wait_ms: 0 }
    );
    let guards = Step::all().iter().filter(|s| matches!(plan_step(**s, &p), StepPlan::Guard { .. })).count();
    assert_eq!(guards, 1);
}

#[test]
fn guard_sits_between_use_max_and_use_button() {
    let all = Step::all();
    assert_eq!(all.len(), 10);
    assert_eq!(all[1], Step::UseMax);
    assert_eq!(all[2], Step::ReissekiGuard);
    assert_eq!(all[3], Step::UseButton);
    assert_eq!(Step::ReissekiGuard.template_name(), "reisseki_zero_guard");
    assert_eq!(Step::Next1.template_name(), "next_button");
    assert_eq!(Step::Next2.template_name(), "next_button");
    assert_eq!(Step::Close.name(), "close");
}

#[test]
fn finish_step_outcomes() {
    let m = Match { score: 0.95f32.to_bits(), center_x: 10, center_y: 20 };
    let log = finish_step(Step::ApPlus, OnMiss::Fail, Some(m), 0.97f32.to_bits(), 1234, 60_000).unwrap();
    assert_eq!(log.step, Step::ApPlus);
    assert_eq!(log.elapsed_ms, 1234);
    assert_eq!(log.matched_score, Some(0.97f32.to_bits()));
    assert!(!log.skipped);
    let log = finish_step(Step::ApPlus, OnMiss::Fail, Some(m), 0.5f32.to_bits(), 1, 60_000).unwrap();
    assert_eq!(log.matched_score, Some(0.95f32.to_bits()));
    let log = finish_step(Step::Close, OnMiss::Skip, None, 0.4f32.to_bits(), 30_001, 30_000).unwrap();
    assert!(log.skipped);
    assert_eq!(log.matched_score, None);
    match finish_step(Step::Toubatsu, OnMiss::Fail, None, 0.4f32.to_bits(), 60_100, 60_000) {
        Err(BotError::TemplateWaitTimeout { template, elapsed_ms, best_score }) => {
            assert_eq!(template, "toubatsu_button");
            assert_eq!(elapsed_ms, 60_000);
            assert_eq!(best_score, 0.4f32.to_bits());
        },
        other => panic!("unexpected {:?}", other),
    }
}

// --- template search ---

#[test]
fn click_search_waits_for_stability_then_clicks_and_caches() {
    let frame = textured_frame(48, 32);
    let tpl = crop_template(&frame, "ap_plus_button", 10, 5, 8, 6, 0.98);
    let s = settings(2, true);
    let mut cache = CoordCache::new();
    let mut search = ClickSearch::new();
    let first = search.step(
        &s,
        "ap_plus_button",
        &tpl,
        &mut cache,
        Capture::Frame { frame: frame.clone(), full_roi: full(&frame) },
        false,
    );
    assert!(matches!(first, SearchAction::Wait(ms) if ms == POLL_SLEEP_FLOOR_MS));
    assert_eq!(search.stable_count, 1);
    assert!(cache.lookup("ap_plus_button").is_none());
    let second = search.step(
        &s,
        "ap_plus_button",
        &tpl,
        &mut cache,
        Capture::Frame { frame: frame.clone(), full_roi: full(&frame) },
        false,
    );
    match second {
        SearchAction::Click(m) => {
            assert_eq!((m.center_x, m.center_y), (14, 8));
            assert!(f32::from_bits(m.score) > 0.99);
            let c = cache.lookup("ap_plus_button").unwrap();
            assert_eq!((c.center_x, c.center_y), (14, 8));
        },
        other => panic!("unexpected {:?}", other),
    }
    assert!(f32::from_bits(search.best_score) > 0.99);
}

#[test]
fn click_search_uses_cached_center_and_counts_hit() {
    let frame = textured_frame(48, 32);
    let tpl = crop_template(&frame, "use_button", 20, 10, 8, 6, 0.98);
    let s = settings(1, true);
    let mut cache = CoordCache::new();
    cache.observe(48, 32);
    cache.record("use_button", CachedCenter { center_x: 24, center_y: 13, last_score: 0.99f32.to_bits() });
    let mut search = ClickSearch::new();
    let r = search.step(
        &s,
        "use_button",
        &tpl,
        &mut cache,
        Capture::Frame { frame: frame.clone(), full_roi: full(&frame) },
        false,
    );
    assert!(matches!(r, SearchAction::Click(m) if (m.center_x, m.center_y) == (24, 13)));
    assert_eq!(cache.stats().hits, 1);
    assert_eq!(cache.stats().small_roi_misses, 0);
}

#[test]
fn click_search_falls_back_and_evicts_stale_center() {
    let frame = textured_frame(48, 32);
    let tpl = crop_template(&frame, "use_button", 30, 20, 8, 6, 0.98);
    let s = settings(2, true);
    let mut cache = CoordCache::new();
    cache.observe(48, 32);
    cache.record("use_button", CachedCenter { center_x: 5, center_y: 5, last_score: 0.99f32.to_bits() });
    let mut search = ClickSearch::new();
    let r = search.step(
        &s,
        "use_button",
        &tpl,
        &mut cache,
        Capture::Frame { frame: frame.clone(), full_roi: full(&frame) },
        false,
    );
    assert!(matches!(r, SearchAction::Wait(_)));
    assert_eq!(cache.stats().small_roi_misses, 1);
    assert_eq!(cache.stats().fallback_succeeded, 1);
    assert!(cache.lookup("use_button").is_none());
}

#[test]
fn click_search_gives_up_after_deadline_without_match() {
    let frame = blank_frame(32, 32);
    let tpl = crop_template(&textured_frame(32, 32), "toubatsu_button", 0, 0, 8, 8, 0.98);
    let s = settings(2, false);
    let mut cache = CoordCache::new();
    let mut search = ClickSearch::new();
    let r = search.step(
        &s,
        "toubatsu_button",
        &tpl,
        &mut cache,
        Capture::Frame { frame: frame.clone(), full_roi: full(&frame) },
        false,
    );
    assert!(matches!(r, SearchAction::Wait(1500)));
    let r = search.step(
        &s,
        "toubatsu_button",
        &tpl,
        &mut cache,
        Capture::Frame { frame: frame.clone(), full_roi: full(&frame) },
        true,
    );
    assert!(matches!(r, SearchAction::GiveUp));
    assert_eq!(search.stable_count, 0);
}

#[test]
fn click_search_retries_capture_failures() {
    let frame = textured_frame(32, 32);
    let tpl = crop_template(&frame, "toubatsu_start", 0, 0, 8, 8, 0.98);
    let s = settings(2, false);
    let mut cache = CoordCache::new();
    let mut search = ClickSearch::new();
    for _ in 0..2 {
        let r = search.step(&s, "toubatsu_start", &tpl, &mut cache, Capture::Failed(BotError::CaptureFailed("x".into())), false);
        assert!(matches!(r, SearchAction::Wait(1500)));
    }
    let r = search.step(&s, "toubatsu_start", &tpl, &mut cache, Capture::Failed(BotError::CaptureFailed("boom".into())), false);
    match r {
        SearchAction::Propagate(BotError::CaptureFailed(m)) => assert_eq!(m, "boom"),
        other => panic!("unexpected {:?}", other),
    }
    assert_eq!(search.consecutive_capture_failures, 3);
}

#[test]
fn search_settings_come_from_config() {
    let mut cfg = base_config();
    cfg.input.stability_count = 0;
    let s = search_settings(&cfg, 777);
    assert_eq!(s.stability_required, 1);
    assert_eq!(s.poll_ms, 777);
    assert_eq!(s.cache_pad_px, 24);
    assert_eq!(s.capture_retry_threshold, 3);
    assert_eq!(s.stability_poll_ms, 50);
}

// --- the guard ---

#[test]
fn guard_passes_when_zero_state_is_seen() {
    let frame = textured_frame(40, 30);
    let tpl = crop_template(&frame, "reisseki_zero_guard", 12, 9, 8, 8, 0.98);
    let mut g = GuardCheck::new();
    let r = g.step(&tpl, 3, 1500, Capture::Frame { frame: frame.clone(), full_roi: full(&frame) }, false, 42);
    match r {
        GuardOutcome::Passed(log) => {
            assert_eq!(log.step, Step::ReissekiGuard);
            assert_eq!(log.elapsed_ms, 42);
            assert!(!log.skipped);
            assert!(f32::from_bits(log.matched_score.unwrap()) > 0.99);
        },
        other => panic!("unexpected {:?}", other),
    }
}

#[test]
fn guard_fails_at_deadline_with_best_score() {
    let frame = blank_frame(40, 30);
    let tpl = crop_template(&textured_frame(40, 30), "reisseki_zero_guard", 12, 9, 8, 8, 0.98);
    let mut g = GuardCheck::new();
    let r = g.step(&tpl, 3, 20, Capture::Frame { frame: frame.clone(), full_roi: full(&frame) }, false, 1);
    assert!(matches!(r, GuardOutcome::Wait(ms) if ms == POLL_SLEEP_FLOOR_MS));
    let r = g.step(&tpl, 3, 20, Capture::Frame { frame: frame.clone(), full_roi: full(&frame) }, true, 2);
    match r {
        GuardOutcome::Failed(BotError::ReissekiGuardFailed { best_score }) => assert_eq!(best_score, g.best_score),
        other => panic!("unexpected {:?}", other),
    }
}

#[test]
fn guard_propagates_repeated_capture_failures() {
    let tpl = crop_template(&textured_frame(40, 30), "reisseki_zero_guard", 12, 9, 8, 8, 0.98);
    let mut g = GuardCheck::new();
    let r = g.step(&tpl, 2, 1500, Capture::Failed(BotError::CaptureFailed("a".into())), false, 0);
    assert!(matches!(r, GuardOutcome::Wait(1500)));
    let r = g.step(&tpl, 2, 1500, Capture::Failed(BotError::CaptureFailed("b".into())), false, 0);
    assert!(matches!(r, GuardOutcome::Failed(BotError::CaptureFailed(_))));
    let mut g = GuardCheck::new();
    let r = g.step(&tpl, 3, 1500, Capture::Failed(BotError::CaptureFailed("a".into())), true, 0);
    assert!(matches!(r, GuardOutcome::Failed(BotError::ReissekiGuardFailed { best_score: 0 })));
}

// --- cycle progress ---

#[test]
fn cycle_run_walks_the_steps_in_order() {
    let mut run = CycleRun::new();
    let mut count = 0;
    while let Some(step) = run.next_step() {
        assert_eq!(step, Step::all()[count]);
        let log = StepLog { step, elapsed_ms: 1, matched_score: Some(0.95f32.to_bits()), skipped: false };
        run.record(log);
        count += 1;
    }
    assert_eq!(count, 10);
    let report = run.finish(at(0, 0), at(10, 0));
    assert_eq!(report.steps.len(), 10);
    assert!(report.success);
    assert!(report.error.is_none());
    assert_eq!(report.steps[2].step, Step::ReissekiGuard);
}

// --- click planning and the loop ---

#[test]
fn plan_click_without_jitter_is_exact() {
    let mut input = InputConfig::default();
    input.click_jitter_radius_px = 0;
    input.click_press_duration_min_ms = 80;
    input.click_press_duration_max_ms = 80;
    let rect = WindowRect { screen_x: 100, screen_y: -50, width: 1280, height: 720 };
    let p = plan_click(Match { score: 0, center_x: 10, center_y: 20 }, rect, &input);
    assert_eq!((p.screen_x, p.screen_y, p.press_ms), (110, -30, 80));
}

#[test]
fn plan_click_jitter_stays_within_radius() {
    let input = InputConfig::default();
    let rect = WindowRect { screen_x: 0, screen_y: 0, width: 1280, height: 720 };
    let mut seen = std::collections::HashSet::new();
    for _ in 0..200 {
        let p = plan_click(Match { score: 0, center_x: 500, center_y: 300 }, rect, &input);
        assert!((497..=503).contains(&p.screen_x));
        assert!((297..=303).contains(&p.screen_y));
        assert!((60..=120).contains(&p.press_ms));
        seen.insert((p.screen_x, p.screen_y));
    }
    assert!(seen.len() > 1);
}

#[test]
fn loop_decision_checks_limit_then_cutoff() {
    let cut = at(1000, 0);
    assert_eq!(loop_decision(3, 3, at(0, 0), cut), LoopDecision::MaxCyclesReached);
    assert_eq!(loop_decision(5, 0, at(0, 0), cut), LoopDecision::RunCycle);
    assert_eq!(loop_decision(1, 3, at(1000, 0), cut), LoopDecision::DailyCutoffReached);
    assert_eq!(loop_decision(1, 3, at(999, 999_999_999), cut), LoopDecision::RunCycle);
    assert_eq!(loop_decision(3, 3, at(2000, 0), cut), LoopDecision::MaxCyclesReached);
    assert_eq!(effective_max_cycles(Some(2), 9), 2);
    assert_eq!(effective_max_cycles(None, 9), 9);
    assert!(effective_dry_run(None, true));
    assert!(!effective_dry_run(Some(false), true));
    assert!(effective_dry_run(Some(true), false));
}

#[test]
fn detect_rows_reports_each_template() {
    let frame = textured_frame(40, 30);
    let hit = crop_template(&frame, "hit", 3, 4, 8, 8, 0.98);
    let big = crop_template(&textured_frame(60, 60), "too_big", 0, 0, 50, 50, 0.98);
    let rows = detect_rows(&frame, &vec![hit, big], &vec![full(&frame), full(&frame)]);
    assert_eq!(rows.len(), 2);
    assert_eq!(rows[0].template, "hit");
    assert!(rows[0].matched);
    assert_eq!(rows[0].center, Some((7, 8)));
    assert_eq!(rows[1].template, "too_big");
    assert!(!rows[1].matched);
    assert_eq!(rows[1].score, 0);
    assert_eq!(rows[1].center, None);
}

#[test]
fn nine_templates_for_ten_steps() {
    let names: std::collections::BTreeSet<&str> = Step::all().iter().map(|s| s.template_name()).collect();
    assert_eq!(names.len(), 9);
    let cacheable: Vec<Step> = Step::all()
        .iter()
        .copied()
        .filter(|s| dmm_game_bot::vision::coord_cache::is_cacheable(s.template_name()))
        .collect();
    assert_eq!(cacheable, vec![Step::ApPlus, Step::UseButton, Step::Toubatsu, Step::ToubatsuStart]);
}

#[test]
fn cycle_run_accepts_a_skipped_close() {
    let mut run = CycleRun::new();
    while let Some(step) = run.next_step() {
        let skipped = step == Step::Close;
        let score = if skipped { None } else { Some(0.95f32.to_bits()) };
        run.record(StepLog { step, elapsed_ms: 0, matched_score: score, skipped });
    }
    let report = run.finish(at(0, 0), at(1, 0));
    assert!(report.steps[9].skipped);
    assert_eq!(report.steps.iter().filter(|l| l.skipped).count(), 1);
}
