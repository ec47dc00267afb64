use dmm_game_bot::config::{
    default_capture_retry_threshold, default_coord_cache_relax_stability_on_hit, default_dry_run, default_threshold,
    find_template_config, CaptureConfig, Config, CoordCacheConfig, InputConfig, LoopConfig, PollConfig, RoiPct,
    SafetyConfig, StopConfig, TemplateConfig, TemplateEntry, WindowConfig, THRESHOLD_0_90,
};
use dmm_game_bot::error::{BotError, ConfigError, InputRangeField, PollField, RoiField};

fn base_template(threshold: f32, roi: Option<RoiPct>) -> TemplateConfig {
    TemplateConfig { file: "x.png".to_string(), threshold: threshold.to_bits(), roi }
}

fn roi(x: f32, y: f32, w: f32, h: f32) -> RoiPct {
    RoiPct { x_pct: x.to_bits(), y_pct: y.to_bits(), w_pct: w.to_bits(), h_pct: h.to_bits() }
}

fn base_config() -> Config {
    let templates = vec![TemplateEntry {
        name: "reisseki_zero_guard".to_string(),
        config: base_template(0.90, Some(roi(0.66, 0.20, 0.30, 0.65))),
    }];
    Config {
        window: WindowConfig { title_pattern: "x".to_string() },
        capture: CaptureConfig::default(),
        loop_: LoopConfig::default(),
        stop: StopConfig::default(),
        input: InputConfig::default(),
        safety: SafetyConfig::default(),
        templates,
        templates_dir: "templates".to_string(),
    }
}

fn guard_mut(cfg: &mut Config) -> &mut TemplateConfig {
    &mut cfg.templates.iter_mut().find(|e| e.name == "reisseki_zero_guard").unwrap().config
}

fn config_error(r: Result<(), BotError>) -> ConfigError {
    match r {
        Err(BotError::Config(e)) => e,
        other => panic!("expected a configuration error, got {:?}", other),
    }
}

#[test]
fn dry_run_default_is_true() {
    assert!(default_dry_run());
    assert!(SafetyConfig::default().dry_run);
}

#[test]
fn validate_accepts_baseline_config() {
    assert!(base_config().validate().is_ok());
}

#[test]
fn validate_rejects_loose_reisseki_threshold() {
    let mut cfg = base_config();
    guard_mut(&mut cfg).threshold = 0.5f32.to_bits();
    let err = cfg.validate().unwrap_err();
    let msg = err.message();
    assert!(msg.contains("reisseki_zero_guard.threshold"));
}

#[test]
fn validate_rejects_zero_threshold() {
    let mut cfg = base_config();
    guard_mut(&mut cfg).threshold = 0.0f32.to_bits();
    assert!(cfg.validate().is_err());
}

#[test]
fn validate_rejects_missing_reisseki_roi() {
    let mut cfg = base_config();
    guard_mut(&mut cfg).roi = None;
    let err = cfg.validate().unwrap_err();
    assert!(err.message().contains("requires explicit roi"));
}

#[test]
fn validate_rejects_nan_roi() {
    let mut cfg = base_config();
    guard_mut(&mut cfg).roi = Some(roi(f32::NAN, 0.0, 1.0, 1.0));
    assert!(cfg.validate().is_err());
}

#[test]
fn validate_rejects_out_of_range_threshold() {
    let mut cfg = base_config();
    guard_mut(&mut cfg).threshold = 1.5f32.to_bits();
    assert!(cfg.validate().is_err());
}

#[test]
fn validate_rejects_zero_poll_interval() {
    let mut cfg = base_config();
    cfg.loop_.poll.default_interval_ms = 0;
    assert!(cfg.validate().is_err());
}

#[test]
fn validate_rejects_missing_reisseki_template() {
    let mut cfg = base_config();
    cfg.templates.clear();
    assert!(cfg.validate().is_err());
}

#[test]
fn validate_rejects_zero_search_pad() {
    let mut cfg = base_config();
    cfg.loop_.coord_cache.search_pad_px = 0;
    let err = cfg.validate().unwrap_err();
    assert!(err.message().contains("coord_cache.search_pad_px"));
}

#[test]
fn validate_rejects_huge_search_pad() {
    let mut cfg = base_config();
    cfg.loop_.coord_cache.search_pad_px = 257;
    assert!(cfg.validate().is_err());
}

#[test]
fn coord_cache_default_round_trip() {
    let cc = CoordCacheConfig::default();
    assert!(cc.enabled);
    assert_eq!(cc.search_pad_px, 24);
    assert!(!cc.relax_stability_on_hit);
    let mut cfg = base_config();
    cfg.loop_.coord_cache = cc;
    assert!(cfg.validate().is_ok());
}

#[test]
fn capture_retry_threshold_default_is_three() {
    assert_eq!(default_capture_retry_threshold(), 3);
    assert_eq!(PollConfig::default().capture_retry_threshold, 3);
}

// --- further checks of the start-up validation ---

#[test]
fn validate_guard_threshold_boundary_is_0_80() {
    let mut cfg = base_config();
    guard_mut(&mut cfg).threshold = 0.80f32.to_bits();
    assert!(cfg.validate().is_ok());
    guard_mut(&mut cfg).threshold = 0.799f32.to_bits();
    match config_error(cfg.validate()) {
        ConfigError::GuardThresholdTooLax { threshold } => assert_eq!(threshold, 0.799f32.to_bits()),
        other => panic!("unexpected {:?}", other),
    }
}

#[test]
fn validate_rejects_nan_threshold_as_out_of_range() {
    let mut cfg = base_config();
    guard_mut(&mut cfg).threshold = f32::NAN.to_bits();
    match config_error(cfg.validate()) {
        ConfigError::TemplateThreshold { template, .. } => assert_eq!(template, "reisseki_zero_guard"),
        other => panic!("unexpected {:?}", other),
    }
}

#[test]
fn validate_reports_missing_guard_variant() {
    let mut cfg = base_config();
    cfg.templates[0].name = "other".to_string();
    let e = config_error(cfg.validate());
    assert!(matches!(e, ConfigError::GuardMissing));
    assert_eq!(e.message(), "reisseki_zero_guard template is required for safety guard");
}

#[test]
fn validate_reports_missing_roi_variant() {
    let mut cfg = base_config();
    guard_mut(&mut cfg).roi = None;
    assert!(matches!(config_error(cfg.validate()), ConfigError::GuardRoiMissing));
}

#[test]
fn validate_rejects_path_traversal() {
    for bad in ["../x.png", "a/../b.png", "..\\x.png", "/abs.png", "\\\\server\\share.png", "C:\\x.png", ".."] {
        let mut cfg = base_config();
        guard_mut(&mut cfg).file = bad.to_string();
        match config_error(cfg.validate()) {
            ConfigError::TemplateFilePath { template, file } => {
                assert_eq!(template, "reisseki_zero_guard");
                assert_eq!(file, bad);
            },
            other => panic!("{} gave {:?}", bad, other),
        }
    }
    for bad in ["c:x.png", "Z:x.png"] {
        let mut cfg = base_config();
        guard_mut(&mut cfg).file = bad.to_string();
        assert!(matches!(config_error(cfg.validate()), ConfigError::TemplateFilePath { .. }), "{}", bad);
    }
    for good in ["x.png", "sub/x.png", "a..b.png", "..x.png", "sub\\..x\\y.png", "1:x.png", "_:x.png"] {
        let mut cfg = base_config();
        guard_mut(&mut cfg).file = good.to_string();
        assert!(cfg.validate().is_ok(), "{} should be accepted", good);
    }
}

#[test]
fn validate_rejects_roi_values() {
    let mut cfg = base_config();
    guard_mut(&mut cfg).roi = Some(roi(0.1, 1.5, 0.2, 0.2));
    match config_error(cfg.validate()) {
        ConfigError::TemplateRoiValue { field, value, .. } => {
            assert_eq!(field, RoiField::Y);
            assert_eq!(value, 1.5f32.to_bits());
        },
        other => panic!("unexpected {:?}", other),
    }
    guard_mut(&mut cfg).roi = Some(roi(0.1, 0.1, 0.0, 0.2));
    let e = config_error(cfg.validate());
    assert!(matches!(e, ConfigError::TemplateRoiEmpty { .. }));
    assert_eq!(e.message(), "template 'reisseki_zero_guard' roi has zero or negative size");
    guard_mut(&mut cfg).roi = Some(roi(-0.0, 0.0, 1.0, 1.0));
    assert!(cfg.validate().is_ok());
}

#[test]
fn validate_checks_every_template_in_order() {
    let mut cfg = base_config();
    cfg.templates.push(TemplateEntry { name: "a".to_string(), config: base_template(2.0, None) });
    cfg.templates.push(TemplateEntry { name: "b".to_string(), config: base_template(-1.0, None) });
    match config_error(cfg.validate()) {
        ConfigError::TemplateThreshold { template, threshold } => {
            assert_eq!(template, "a");
            assert_eq!(threshold, 2.0f32.to_bits());
        },
        other => panic!("unexpected {:?}", other),
    }
}

#[test]
fn validate_poll_and_stability_bounds() {
    let mut cfg = base_config();
    cfg.loop_.poll.post_battle_interval_ms = 99;
    let e = config_error(cfg.validate());
    assert!(matches!(e, ConfigError::PollIntervalTooSmall { field: PollField::PostBattleInterval, value: 99 }));
    assert_eq!(e.message(), "loop.poll.post_battle_interval_ms = 99 is too small (minimum 100ms)");
    cfg.loop_.poll.post_battle_interval_ms = 100;
    assert!(cfg.validate().is_ok());
    cfg.loop_.poll.debounce_interval_ms = 5;
    assert!(matches!(
        config_error(cfg.validate()),
        ConfigError::PollIntervalTooSmall { field: PollField::DebounceInterval, value: 5 }
    ));
    cfg.loop_.poll.debounce_interval_ms = 100;
    cfg.input.stability_poll_ms = 49;
    let e = config_error(cfg.validate());
    assert!(matches!(e, ConfigError::StabilityPollTooSmall { value: 49 }));
    assert_eq!(e.message(), "input.stability_poll_ms = 49 is too small (minimum 50ms)");
    cfg.input.stability_poll_ms = 50;
    assert!(cfg.validate().is_ok());
}

#[test]
fn validate_search_pad_bounds() {
    let mut cfg = base_config();
    cfg.loop_.coord_cache.search_pad_px = 1;
    assert!(cfg.validate().is_ok());
    cfg.loop_.coord_cache.search_pad_px = 256;
    assert!(cfg.validate().is_ok());
    cfg.loop_.coord_cache.search_pad_px = 257;
    let e = config_error(cfg.validate());
    assert!(matches!(e, ConfigError::SearchPadOutOfRange { value: 257 }));
    assert_eq!(e.message(), "loop.coord_cache.search_pad_px = 257 out of range [1, 256]");
}

#[test]
fn validate_rejects_inverted_input_ranges() {
    let mut cfg = base_config();
    cfg.input.pre_click_min_ms = 400;
    cfg.input.pre_click_max_ms = 300;
    let e = config_error(cfg.validate());
    assert!(matches!(e, ConfigError::InputRangeInverted { field: InputRangeField::PreClick, min: 400, max: 300 }));
    assert_eq!(e.message(), "input.pre_click_min_ms = 400 exceeds input.pre_click_max_ms = 300");
    cfg.input.pre_click_max_ms = 400;
    assert!(cfg.validate().is_ok());
    cfg.input.click_press_duration_min_ms = 121;
    assert!(matches!(
        config_error(cfg.validate()),
        ConfigError::InputRangeInverted { field: InputRangeField::ClickPressDuration, .. }
    ));
    cfg.input.click_press_duration_min_ms = 60;
    cfg.input.post_click_min_ms = 900;
    assert!(matches!(
        config_error(cfg.validate()),
        ConfigError::InputRangeInverted { field: InputRangeField::PostClick, min: 900, max: 800 }
    ));
}

#[test]
fn defaults_have_documented_values() {
    let p = PollConfig::default();
    assert_eq!(p.default_interval_ms, 1500);
    assert_eq!(p.default_timeout_ms, 60_000);
    assert_eq!(p.post_battle_interval_ms, 7_000);
    assert_eq!(p.post_battle_timeout_ms, 2_700_000);
    assert_eq!(p.post_battle_min_wait_ms, 1_500_000);
    assert_eq!(p.next1_settle_wait_ms, 3_000);
    assert_eq!(p.next2_settle_wait_ms, 2_000);
    assert_eq!(p.close_button_timeout_ms, 30_000);
    let i = InputConfig::default();
    assert_eq!(i.click_jitter_radius_px, 3);
    assert_eq!((i.click_press_duration_min_ms, i.click_press_duration_max_ms), (60, 120));
    assert_eq!((i.pre_click_min_ms, i.pre_click_max_ms), (150, 300));
    assert_eq!((i.post_click_min_ms, i.post_click_max_ms), (400, 800));
    assert_eq!(i.stability_count, 2);
    assert_eq!(i.stability_score_tol, 0.03f32.to_bits());
    assert_eq!(i.stability_poll_ms, 50);
    assert_eq!(StopConfig::default().daily_cutoff_jst, "05:00");
    assert_eq!(default_threshold(), 0.90f32.to_bits());
    assert_eq!(THRESHOLD_0_90, 0.90f32.to_bits());
    assert!(!default_coord_cache_relax_stability_on_hit());
    assert_eq!(LoopConfig::default().max_cycles, 0);
}

#[test]
fn find_template_config_returns_first_of_name() {
    let mut cfg = base_config();
    cfg.templates.push(TemplateEntry { name: "dup".to_string(), config: base_template(0.5, None) });
    cfg.templates.push(TemplateEntry { name: "dup".to_string(), config: base_template(0.7, None) });
    let t = find_template_config(&cfg.templates, "dup").unwrap();
    assert_eq!(t.threshold, 0.5f32.to_bits());
    assert!(find_template_config(&cfg.templates, "none").is_none());
}

#[test]
fn validate_rejects_duplicate_template_names() {
    let mut cfg = base_config();
    cfg.templates.push(TemplateEntry { name: "a".to_string(), config: base_template(0.5, None) });
    cfg.templates.push(TemplateEntry { name: "a".to_string(), config: base_template(0.7, None) });
    let e = config_error(cfg.validate());
    assert!(matches!(&e, ConfigError::DuplicateTemplate { template } if template == "a"));
    assert_eq!(e.message(), "template 'a' is defined twice");
}
