use dmm_game_bot::vision::coord_cache::{is_cacheable, small_roi, CachedCenter, CoordCache, CACHEABLE_TEMPLATES};

fn cc(cx: u32, cy: u32) -> CachedCenter {
    CachedCenter { center_x: cx, center_y: cy, last_score: 0.99f32.to_bits() }
}

#[test]
fn whitelist_excludes_reisseki_guard() {
    assert!(!is_cacheable("reisseki_zero_guard"));
    assert!(!CACHEABLE_TEMPLATES.contains(&"reisseki_zero_guard"));
}

#[test]
fn whitelist_excludes_dynamic_templates() {
    for n in ["next_button", "close_button", "tap_indicator", "ap_recovered_use_max"] {
        assert!(!is_cacheable(n), "expected {} to NOT be cacheable (dynamic position or excluded template)", n);
    }
}

#[test]
fn record_ignores_non_whitelisted() {
    let mut c = CoordCache::new();
    c.observe(1280, 720);
    c.record("reisseki_zero_guard", cc(100, 100));
    assert!(c.lookup("reisseki_zero_guard").is_none());
    c.record("next_button", cc(100, 100));
    assert!(c.lookup("next_button").is_none());
    c.record("ap_plus_button", cc(50, 50));
    assert!(c.lookup("ap_plus_button").is_some());
}

#[test]
fn observe_invalidates_on_size_change() {
    let mut c = CoordCache::new();
    c.observe(1280, 720);
    c.record("ap_plus_button", cc(100, 100));
    assert_eq!(c.entries_len(), 1);
    c.observe(1920, 1080);
    assert_eq!(c.entries_len(), 0);
    assert_eq!(c.stats().invalidations, 1);
}

#[test]
fn observe_same_size_is_noop() {
    let mut c = CoordCache::new();
    c.observe(1280, 720);
    c.record("ap_plus_button", cc(100, 100));
    c.observe(1280, 720);
    assert_eq!(c.entries_len(), 1);
    assert_eq!(c.stats().invalidations, 0);
}

#[test]
fn small_roi_clamps_at_origin() {
    let r = small_roi(cc(10, 10), 40, 40, 24, 1280, 720);
    assert_eq!(r.x, 0);
    assert_eq!(r.y, 0);
    assert!(r.w > 0);
    assert!(r.h > 0);
}

#[test]
fn small_roi_clamps_at_far_edge() {
    let r = small_roi(cc(1279, 719), 40, 40, 24, 1280, 720);
    assert!(r.x < 1280);
    assert!(r.y < 720);
    assert!(r.x + r.w <= 1280);
    assert!(r.y + r.h <= 720);
}

#[test]
fn small_roi_handles_zero_client() {
    let r = small_roi(cc(100, 100), 40, 40, 24, 0, 0);
    assert_eq!(r.w, 0);
    assert_eq!(r.h, 0);
}

// --- further behaviour of the cache ---

#[test]
fn whitelist_is_exactly_the_fixed_buttons() {
    assert_eq!(CACHEABLE_TEMPLATES, ["ap_plus_button", "use_button", "toubatsu_button", "toubatsu_start"]);
    for n in CACHEABLE_TEMPLATES {
        assert!(is_cacheable(n));
    }
    assert!(!is_cacheable(""));
    assert!(!is_cacheable("use_button "));
}

#[test]
fn record_then_lookup_round_trips() {
    let mut c = CoordCache::new();
    assert!(c.lookup("use_button").is_none());
    c.record("use_button", cc(640, 360));
    assert_eq!(c.lookup("use_button"), Some(cc(640, 360)));
    c.record("use_button", cc(641, 361));
    assert_eq!(c.lookup("use_button"), Some(cc(641, 361)));
    assert_eq!(c.entries_len(), 1);
    c.record("toubatsu_start", cc(1, 2));
    assert_eq!(c.entries_len(), 2);
    c.evict("use_button");
    assert!(c.lookup("use_button").is_none());
    assert_eq!(c.lookup("toubatsu_start"), Some(cc(1, 2)));
    assert_eq!(c.entries_len(), 1);
}

#[test]
fn first_observation_sets_baseline_without_invalidation() {
    let mut c = CoordCache::new();
    c.record("use_button", cc(5, 5));
    c.observe(800, 600);
    assert_eq!(c.entries_len(), 1);
    assert_eq!(c.stats().invalidations, 0);
    c.observe(800, 601);
    assert_eq!(c.entries_len(), 0);
    c.observe(800, 600);
    assert_eq!(c.stats().invalidations, 2);
}

#[test]
fn counters_count_each_event() {
    let mut c = CoordCache::new();
    c.note_hit();
    c.note_hit();
    c.note_small_roi_miss();
    c.note_fallback_succeeded();
    c.note_fallback_failed();
    c.note_fallback_failed();
    let s = c.stats();
    assert_eq!((s.hits, s.small_roi_misses, s.fallback_succeeded, s.fallback_failed), (2, 1, 1, 2));
}

#[test]
fn small_roi_exact_values() {
    let r = small_roi(cc(640, 360), 40, 30, 24, 1280, 720);
    assert_eq!((r.x, r.y, r.w, r.h), (640 - 20 - 24, 360 - 15 - 24, 88, 78));
    let r = small_roi(cc(1279, 719), 40, 40, 24, 1280, 720);
    assert_eq!((r.x, r.y), (1279 - 20 - 24, 719 - 20 - 24));
    assert_eq!((r.w, r.h), (1280 - r.x, 720 - r.y));
}
