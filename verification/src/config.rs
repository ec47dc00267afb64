//! Configuration of the bot and its start-up checks.
//!
//! The program parses the TOML file into its own copy of these types and
//! converts it; float fields (thresholds, ROI ratios, the score tolerance)
//! are held as IEEE-754 bit patterns (see `crate::ieee`).
use vstd::prelude::*;
use crate::domain::step::guard_template_view;
use crate::error::{BotError, ConfigError, InputRangeField, PollField, RoiField};
use crate::ieee;
use crate::text::str_eq;

verus! {

#[derive(Debug, Clone)]
pub struct Config {
    pub window: WindowConfig,
    pub capture: CaptureConfig,
    pub loop_: LoopConfig,
    pub stop: StopConfig,
    pub input: InputConfig,
    pub safety: SafetyConfig,
    /// Named templates in configuration order.
    pub templates: Vec<TemplateEntry>,
    /// Directory of the template images (overridable from the command line).
    pub templates_dir: String,
}

/// One `[templates.<name>]` table.
#[derive(Debug, Clone)]
pub struct TemplateEntry {
    pub name: String,
    pub config: TemplateConfig,
}

pub fn default_templates_dir() -> (r: String)
    ensures
        r@ == "templates"@,
{
    String::from_str("templates")
}

#[derive(Debug, Clone)]
pub struct WindowConfig {
    pub title_pattern: String,
}

#[derive(Debug, Clone, Copy)]
pub struct CaptureConfig {
    pub method: CaptureMethod,
}

impl Default for CaptureConfig {
    fn default() -> (r: Self)
        ensures
            r.method == CaptureMethod::PrintWindow,
    {
        Self { method: default_capture_method() }
    }
}

pub fn default_capture_method() -> (r: CaptureMethod)
    ensures
        r == CaptureMethod::PrintWindow,
{
    CaptureMethod::PrintWindow
}

#[derive(Debug, Clone, Copy, PartialEq, Eq, Structural)]
pub enum CaptureMethod {
    PrintWindow,
    Bitblt,
}

#[derive(Debug, Clone, Copy)]
pub struct LoopConfig {
    /// 0 runs without a cycle limit.
    pub max_cycles: u32,
    pub poll: PollConfig,
    pub coord_cache: CoordCacheConfig,
}

impl Default for LoopConfig {
    fn default() -> (r: Self)
        ensures
            r.max_cycles == 0,
            r.poll == PollConfig::default_view(),
            r.coord_cache == CoordCacheConfig::default_view(),
    {
        Self { max_cycles: 0, poll: PollConfig::default(), coord_cache: CoordCacheConfig::default() }
    }
}

/// Settings of the coordinate cache.
#[derive(Debug, Clone, Copy, PartialEq, Eq, Structural)]
pub struct CoordCacheConfig {
    /// `false` bypasses the cache entirely.
    pub enabled: bool,
    /// Padding in pixels added around the cached center and template size.
    pub search_pad_px: u32,
    /// Whether a cache hit may relax the stability check (reserved; off).
    pub relax_stability_on_hit: bool,
}

impl CoordCacheConfig {
    pub open spec fn default_view() -> CoordCacheConfig {
        CoordCacheConfig { enabled: true, search_pad_px: 24, relax_stability_on_hit: false }
    }
}

impl Default for CoordCacheConfig {
    fn default() -> (r: Self)
        ensures
            r == Self::default_view(),
    {
        Self {
            enabled: default_coord_cache_enabled(),
            search_pad_px: default_coord_cache_search_pad_px(),
            relax_stability_on_hit: default_coord_cache_relax_stability_on_hit(),
        }
    }
}

pub fn default_coord_cache_enabled() -> (r: bool)
    ensures
        r,
{
    true
}

pub fn default_coord_cache_search_pad_px() -> (r: u32)
    ensures
        r == 24,
{
    24
}

pub fn default_coord_cache_relax_stability_on_hit() -> (r: bool)
    ensures
        !r,
{
    false
}

/// Polling periods, timeouts and hard waits, in milliseconds.
#[derive(Debug, Clone, Copy, PartialEq, Eq, Structural)]
pub struct PollConfig {
    pub default_interval_ms: u64,
    pub default_timeout_ms: u64,
    pub post_battle_interval_ms: u64,
    pub post_battle_timeout_ms: u64,
    /// Hard wait after the battle start click (0 disables it).
    pub post_battle_min_wait_ms: u64,
    /// Hard wait after the first result click.
    pub next1_settle_wait_ms: u64,
    /// Hard wait after the second result click.
    pub next2_settle_wait_ms: u64,
    pub close_button_timeout_ms: u64,
    pub debounce_interval_ms: u64,
    pub debounce_timeout_ms: u64,
    /// Consecutive capture failures tolerated before one is propagated
    /// (0 and 1 both propagate the first failure).
    pub capture_retry_threshold: u32,
}

impl PollConfig {
    pub open spec fn default_view() -> PollConfig {
        PollConfig {
            default_interval_ms: 1500,
            default_timeout_ms: 60_000,
            post_battle_interval_ms: 7_000,
            post_battle_timeout_ms: 2_700_000,
            post_battle_min_wait_ms: 1_500_000,
            next1_settle_wait_ms: 3_000,
            next2_settle_wait_ms: 2_000,
            close_button_timeout_ms: 30_000,
            debounce_interval_ms: 1500,
            debounce_timeout_ms: 60_000,
            capture_retry_threshold: 3,
        }
    }
}

impl Default for PollConfig {
    fn default() -> (r: Self)
        ensures
            r == Self::default_view(),
    {
        Self {
            default_interval_ms: default_default_interval_ms(),
            default_timeout_ms: default_default_timeout_ms(),
            post_battle_interval_ms: default_post_battle_interval_ms(),
            post_battle_timeout_ms: default_post_battle_timeout_ms(),
            post_battle_min_wait_ms: default_post_battle_min_wait_ms(),
            next1_settle_wait_ms: default_next1_settle_wait_ms(),
            next2_settle_wait_ms: default_next2_settle_wait_ms(),
            close_button_timeout_ms: default_close_button_timeout_ms(),
            debounce_interval_ms: default_debounce_interval_ms(),
            debounce_timeout_ms: default_debounce_timeout_ms(),
            capture_retry_threshold: default_capture_retry_threshold(),
        }
    }
}

pub fn default_default_interval_ms() -> (r: u64)
    ensures
        r == 1500,
{
    1500
}

pub fn default_default_timeout_ms() -> (r: u64)
    ensures
        r == 60_000,
{
    60_000
}

pub fn default_post_battle_interval_ms() -> (r: u64)
    ensures
        r == 7_000,
{
    7_000
}

/// 45 minutes.
pub fn default_post_battle_timeout_ms() -> (r: u64)
    ensures
        r == 2_700_000,
{
    2_700_000
}

/// 25 minutes.
pub fn default_post_battle_min_wait_ms() -> (r: u64)
    ensures
        r == 1_500_000,
{
    1_500_000
}

pub fn default_next1_settle_wait_ms() -> (r: u64)
    ensures
        r == 3_000,
{
    3_000
}

pub fn default_next2_settle_wait_ms() -> (r: u64)
    ensures
        r == 2_000,
{
    2_000
}

pub fn default_close_button_timeout_ms() -> (r: u64)
    ensures
        r == 30_000,
{
    30_000
}

pub fn default_debounce_interval_ms() -> (r: u64)
    ensures
        r == 1500,
{
    1500
}

pub fn default_debounce_timeout_ms() -> (r: u64)
    ensures
        r == 60_000,
{
    60_000
}

/// Three consecutive capture failures are tolerated by default.
pub fn default_capture_retry_threshold() -> (r: u32)
    ensures
        r == 3,
{
    3
}

#[derive(Debug, Clone)]
pub struct StopConfig {
    /// Daily stop time, "HH:MM" in JST.
    pub daily_cutoff_jst: String,
}

impl Default for StopConfig {
    fn default() -> (r: Self)
        ensures
            r.daily_cutoff_jst@ == "05:00"@,
    {
        Self { daily_cutoff_jst: default_daily_cutoff_jst() }
    }
}

pub fn default_daily_cutoff_jst() -> (r: String)
    ensures
        r@ == "05:00"@,
{
    String::from_str("05:00")
}

/// Input timing and the stability check. `stability_score_tol` is an
/// IEEE-754 bit pattern.
#[derive(Debug, Clone, Copy, PartialEq, Eq, Structural)]
pub struct InputConfig {
    pub click_jitter_radius_px: u32,
    pub click_press_duration_min_ms: u64,
    pub click_press_duration_max_ms: u64,
    /// Delay between a stable match and the click.
    pub pre_click_min_ms: u64,
    pub pre_click_max_ms: u64,
    /// Delay between the click and the next search.
    pub post_click_min_ms: u64,
    pub post_click_max_ms: u64,
    /// Consecutive consistent matches needed before a click (1 clicks at once).
    pub stability_count: u32,
    /// Largest center movement, in pixels, between consistent matches.
    pub stability_position_tol_px: u32,
    /// Largest score change between consistent matches.
    pub stability_score_tol: u32,
    /// Polling period while a match waits for stability.
    pub stability_poll_ms: u64,
}

impl InputConfig {
    pub open spec fn default_view() -> InputConfig {
        InputConfig {
            click_jitter_radius_px: 3,
            click_press_duration_min_ms: 60,
            click_press_duration_max_ms: 120,
            pre_click_min_ms: 150,
            pre_click_max_ms: 300,
            post_click_min_ms: 400,
            post_click_max_ms: 800,
            stability_count: 2,
            stability_position_tol_px: 6,
            stability_score_tol: SCORE_TOL_0_03,
            stability_poll_ms: 50,
        }
    }
}

impl Default for InputConfig {
    fn default() -> (r: Self)
        ensures
            r == Self::default_view(),
    {
        Self {
            click_jitter_radius_px: default_click_jitter_radius_px(),
            click_press_duration_min_ms: default_click_press_duration_min_ms(),
            click_press_duration_max_ms: default_click_press_duration_max_ms(),
            pre_click_min_ms: default_pre_click_min_ms(),
            pre_click_max_ms: default_pre_click_max_ms(),
            post_click_min_ms: default_post_click_min_ms(),
            post_click_max_ms: default_post_click_max_ms(),
            stability_count: default_stability_count(),
            stability_position_tol_px: default_stability_position_tol_px(),
            stability_score_tol: default_stability_score_tol(),
            stability_poll_ms: default_stability_poll_ms(),
        }
    }
}

/// Bits of `0.03_f32`.
pub const SCORE_TOL_0_03: u32 = 0x3CF5_C28F;

/// Bits of `0.90_f32`.
pub const THRESHOLD_0_90: u32 = 0x3F66_6666;

/// Bits of `0.80_f32`, the lowest threshold the guard template may have.
/// Only stricter values are allowed.
pub const REISSEKI_GUARD_MIN_THRESHOLD: u32 = 0x3F4C_CCCD;

/// Polls faster than this spin the capture loop; refused at start-up.
pub const MIN_POLL_INTERVAL_MS: u64 = 100;

/// Lower bound of the fast polling while a match waits for stability.
pub const MIN_STABILITY_POLL_MS: u64 = 50;

/// Smallest coordinate cache padding (0 tolerates no drift at all).
pub const COORD_CACHE_MIN_PAD_PX: u32 = 1;

/// Largest coordinate cache padding (beyond it the small ROI buys nothing).
pub const COORD_CACHE_MAX_PAD_PX: u32 = 256;

pub fn default_click_jitter_radius_px() -> (r: u32)
    ensures
        r == 3,
{
    3
}

pub fn default_click_press_duration_min_ms() -> (r: u64)
    ensures
        r == 60,
{
    60
}

pub fn default_click_press_duration_max_ms() -> (r: u64)
    ensures
        r == 120,
{
    120
}

pub fn default_pre_click_min_ms() -> (r: u64)
    ensures
        r == 150,
{
    150
}

pub fn default_pre_click_max_ms() -> (r: u64)
    ensures
        r == 300,
{
    300
}

pub fn default_post_click_min_ms() -> (r: u64)
    ensures
        r == 400,
{
    400
}

pub fn default_post_click_max_ms() -> (r: u64)
    ensures
        r == 800,
{
    800
}

pub fn default_stability_count() -> (r: u32)
    ensures
        r == 2,
{
    2
}

pub fn default_stability_position_tol_px() -> (r: u32)
    ensures
        r == 6,
{
    6
}

/// Bits of `0.03_f32`.
pub fn default_stability_score_tol() -> (r: u32)
    ensures
        r == SCORE_TOL_0_03,
{
    SCORE_TOL_0_03
}

pub fn default_stability_poll_ms() -> (r: u64)
    ensures
        r == 50,
{
    50
}

#[derive(Debug, Clone, Copy)]
pub struct SafetyConfig {
    /// No click is sent while this is set.
    pub dry_run: bool,
}

impl Default for SafetyConfig {
    fn default() -> (r: Self)
        ensures
            r.dry_run,
    {
        Self { dry_run: default_dry_run() }
    }
}

/// Clicks are suppressed unless the configuration says otherwise.
pub fn default_dry_run() -> (r: bool)
    ensures
        r,
{
    true
}

/// One template: its image file, its acceptance threshold (bits) and its
/// optional search region.
#[derive(Debug, Clone)]
pub struct TemplateConfig {
    pub file: String,
    pub threshold: u32,
    pub roi: Option<RoiPct>,
}

/// Bits of `0.90_f32`.
pub fn default_threshold() -> (r: u32)
    ensures
        r == THRESHOLD_0_90,
{
    THRESHOLD_0_90
}

/// Ratios of the client area (0.0 to 1.0), as IEEE-754 bit patterns.
#[derive(Debug, Clone, Copy, PartialEq, Eq, Structural)]
pub struct RoiPct {
    pub x_pct: u32,
    pub y_pct: u32,
    pub w_pct: u32,
    pub h_pct: u32,
}

// ---------------------------------------------------------------------------
// Start-up checks
// ---------------------------------------------------------------------------

pub open spec fn is_sep(c: char) -> bool {
    c == '/' || c == '\\'
}

/// A `..` component starts at index `i`.
pub open spec fn parent_component_at(f: Seq<char>, i: int) -> bool {
    0 <= i && i + 1 < f.len() && f[i] == '.' && f[i + 1] == '.' && (i == 0 || is_sep(f[i - 1]))
        && (i + 2 == f.len() || is_sep(f[i + 2]))
}

/// An ASCII letter, the only character that starts a drive prefix.
pub open spec fn is_ascii_letter(c: char) -> bool {
    ('a' <= c && c <= 'z') || ('A' <= c && c <= 'Z')
}

/// A template file path stays inside the templates directory: it has no
/// root or UNC prefix, no drive prefix (an ASCII letter and `:`) and no
/// `..` component (both `/` and `\` separate components).
pub open spec fn file_path_safe(f: Seq<char>) -> bool {
    &&& !(f.len() >= 1 && is_sep(f[0]))
    &&& !(f.len() >= 2 && is_ascii_letter(f[0]) && f[1] == ':')
    &&& forall|i: int| !#[trigger] parent_component_at(f, i)
}

/// First failing check of one template, in the order: file path,
/// threshold, the four ROI ratios, the ROI size.
pub open spec fn template_violation(e: TemplateEntry) -> Option<ConfigError> {
    let t = e.config;
    if !file_path_safe(t.file@) {
        Some(ConfigError::TemplateFilePath { template: e.name, file: t.file })
    } else if !ieee::is_finite(t.threshold) || !ieee::in_unit_interval(t.threshold) {
        Some(ConfigError::TemplateThreshold { template: e.name, threshold: t.threshold })
    } else {
        match t.roi {
            None => None,
            Some(r) => {
                if !ieee::is_finite(r.x_pct) || !ieee::in_unit_interval(r.x_pct) {
                    Some(ConfigError::TemplateRoiValue { template: e.name, field: RoiField::X, value: r.x_pct })
                } else if !ieee::is_finite(r.y_pct) || !ieee::in_unit_interval(r.y_pct) {
                    Some(ConfigError::TemplateRoiValue { template: e.name, field: RoiField::Y, value: r.y_pct })
                } else if !ieee::is_finite(r.w_pct) || !ieee::in_unit_interval(r.w_pct) {
                    Some(ConfigError::TemplateRoiValue { template: e.name, field: RoiField::W, value: r.w_pct })
                } else if !ieee::is_finite(r.h_pct) || !ieee::in_unit_interval(r.h_pct) {
                    Some(ConfigError::TemplateRoiValue { template: e.name, field: RoiField::H, value: r.h_pct })
                } else if ieee::le(r.w_pct, ieee::ZERO_BITS) || ieee::le(r.h_pct, ieee::ZERO_BITS) {
                    Some(ConfigError::TemplateRoiEmpty { template: e.name, w_pct: r.w_pct, h_pct: r.h_pct })
                } else {
                    None
                }
            },
        }
    }
}

/// First failing template, in configuration order.
pub open spec fn first_template_violation(ts: Seq<TemplateEntry>) -> Option<ConfigError>
    decreases ts.len(),
{
    if ts.len() == 0 {
        None
    } else {
        match template_violation(ts[0]) {
            Some(e) => Some(e),
            None => first_template_violation(ts.drop_first()),
        }
    }
}

/// The first template named `name`.
pub open spec fn find_template(ts: Seq<TemplateEntry>, name: Seq<char>) -> Option<TemplateConfig>
    decreases ts.len(),
{
    if ts.len() == 0 {
        None
    } else if ts[0].name@ == name {
        Some(ts[0].config)
    } else {
        find_template(ts.drop_first(), name)
    }
}

/// Some earlier template has the name of template `j`.
pub open spec fn repeats_earlier(ts: Seq<TemplateEntry>, j: int) -> bool {
    exists|i: int| 0 <= i < j && (#[trigger] ts[i]).name@ == ts[j].name@
}

/// The first template that repeats an earlier template's name.
pub open spec fn first_repeat(ts: Seq<TemplateEntry>) -> Option<int> {
    if exists|j: int| 0 <= j < ts.len() && #[trigger] repeats_earlier(ts, j) {
        Some(
            choose|j: int|
                0 <= j < ts.len() && #[trigger] repeats_earlier(ts, j) && forall|k: int|
                    0 <= k < j ==> !#[trigger] repeats_earlier(ts, k),
        )
    } else {
        None
    }
}

/// No two templates share a name.
pub open spec fn names_distinct(ts: Seq<TemplateEntry>) -> bool {
    forall|i: int, j: int| 0 <= i < j < ts.len() ==> (#[trigger] ts[i]).name@ != (#[trigger] ts[j]).name@
}

/// Checks of the premium-currency guard template.
pub open spec fn guard_violation(ts: Seq<TemplateEntry>) -> Option<ConfigError> {
    match find_template(ts, guard_template_view()) {
        None => Some(ConfigError::GuardMissing),
        Some(t) => {
            if ieee::lt(t.threshold, REISSEKI_GUARD_MIN_THRESHOLD) {
                Some(ConfigError::GuardThresholdTooLax { threshold: t.threshold })
            } else if t.roi.is_none() {
                Some(ConfigError::GuardRoiMissing)
            } else {
                None
            }
        },
    }
}

/// Checks of the polling periods.
pub open spec fn poll_violation(p: PollConfig, stability_poll_ms: u64) -> Option<ConfigError> {
    if p.default_interval_ms < MIN_POLL_INTERVAL_MS {
        Some(ConfigError::PollIntervalTooSmall { field: PollField::DefaultInterval, value: p.default_interval_ms })
    } else if p.post_battle_interval_ms < MIN_POLL_INTERVAL_MS {
        Some(ConfigError::PollIntervalTooSmall { field: PollField::PostBattleInterval, value: p.post_battle_interval_ms })
    } else if p.debounce_interval_ms < MIN_POLL_INTERVAL_MS {
        Some(ConfigError::PollIntervalTooSmall { field: PollField::DebounceInterval, value: p.debounce_interval_ms })
    } else if stability_poll_ms < MIN_STABILITY_POLL_MS {
        Some(ConfigError::StabilityPollTooSmall { value: stability_poll_ms })
    } else {
        None
    }
}

/// Checks of the `[input]` min/max pairs.
pub open spec fn input_range_violation(i: InputConfig) -> Option<ConfigError> {
    if i.click_press_duration_min_ms > i.click_press_duration_max_ms {
        Some(ConfigError::InputRangeInverted {
            field: InputRangeField::ClickPressDuration,
            min: i.click_press_duration_min_ms,
            max: i.click_press_duration_max_ms,
        })
    } else if i.pre_click_min_ms > i.pre_click_max_ms {
        Some(ConfigError::InputRangeInverted { field: InputRangeField::PreClick, min: i.pre_click_min_ms, max: i.pre_click_max_ms })
    } else if i.post_click_min_ms > i.post_click_max_ms {
        Some(ConfigError::InputRangeInverted { field: InputRangeField::PostClick, min: i.post_click_min_ms, max: i.post_click_max_ms })
    } else {
        None
    }
}

/// The first check that `cfg` fails, in the order of `Config::validate`.
pub open spec fn config_violation(cfg: Config) -> Option<ConfigError> {
    match first_template_violation(cfg.templates@) {
        Some(e) => Some(e),
        None => match first_repeat(cfg.templates@) {
        Some(j) => Some(ConfigError::DuplicateTemplate { template: cfg.templates@[j].name }),
        None => match guard_violation(cfg.templates@) {
            Some(e) => Some(e),
            None => match poll_violation(cfg.loop_.poll, cfg.input.stability_poll_ms) {
                Some(e) => Some(e),
                None => {
                    let pad = cfg.loop_.coord_cache.search_pad_px;
                    if !(COORD_CACHE_MIN_PAD_PX <= pad <= COORD_CACHE_MAX_PAD_PX) {
                        Some(ConfigError::SearchPadOutOfRange { value: pad })
                    } else {
                        input_range_violation(cfg.input)
                    }
                },
            },
        },
        },
    }
}

proof fn lemma_first_repeat_none(ts: Seq<TemplateEntry>)
    requires
        first_repeat(ts).is_none(),
    ensures
        names_distinct(ts),
{
    assert forall|i: int, j: int| 0 <= i < j < ts.len() implies (#[trigger] ts[i]).name@ != (#[trigger] ts[j]).name@ by {
        if ts[i].name@ == ts[j].name@ {
            assert(repeats_earlier(ts, j));
        }
    }
}

/// Index of the first template that repeats an earlier name.
fn find_repeat(ts: &Vec<TemplateEntry>) -> (r: Option<usize>)
    ensures
        match r {
            Some(j) => first_repeat(ts@) == Some(j as int) && j < ts@.len(),
            None => first_repeat(ts@).is_none(),
        },
{
    let mut j: usize = 0;
    while j < ts.len()
        invariant
            j <= ts@.len(),
            forall|k: int| 0 <= k < j ==> !#[trigger] repeats_earlier(ts@, k),
        decreases ts.len() - j,
    {
        let mut i: usize = 0;
        while i < j
            invariant
                j < ts@.len(),
                i <= j,
                forall|k: int| 0 <= k < j ==> !#[trigger] repeats_earlier(ts@, k),
                forall|k: int| 0 <= k < i ==> (#[trigger] ts@[k]).name@ != ts@[j as int].name@,
            decreases j - i,
        {
            if str_eq(ts[i].name.as_str(), ts[j].name.as_str()) {
                proof {
                    assert(repeats_earlier(ts@, j as int));
                    let w = choose|w: int|
                        0 <= w < ts@.len() && #[trigger] repeats_earlier(ts@, w) && forall|k: int|
                            0 <= k < w ==> !#[trigger] repeats_earlier(ts@, k);
                    if w < j {
                        assert(!repeats_earlier(ts@, w));
                    }
                }
                return Some(j);
            }
            i = i + 1;
        }
        proof {
            assert(!repeats_earlier(ts@, j as int));
        }
        j = j + 1;
    }
    None
}

fn file_path_is_safe(f: &str) -> (r: bool)
    ensures
        r == file_path_safe(f@),
{
    let n = f.unicode_len();
    if n >= 1 {
        let c0 = f.get_char(0);
        if c0 == '/' || c0 == '\\' {
            return false;
        }
    }
    if n >= 2 && f.get_char(1) == ':' {
        let c0 = f.get_char(0);
        if ('a' <= c0 && c0 <= 'z') || ('A' <= c0 && c0 <= 'Z') {
            return false;
        }
    }
    let mut i: usize = 0;
    while i < n
        invariant
            n == f@.len(),
            i <= n,
            forall|j: int| 0 <= j < i ==> !parent_component_at(f@, j),
        decreases n - i,
    {
        if i + 1 < n && f.get_char(i) == '.' && f.get_char(i + 1) == '.' {
            let starts = i == 0 || {
                let p = f.get_char(i - 1);
                p == '/' || p == '\\'
            };
            let ends = i + 2 == n || {
                let q = f.get_char(i + 2);
                q == '/' || q == '\\'
            };
            if starts && ends {
                assert(parent_component_at(f@, i as int));
                return false;
            }
        }
        i = i + 1;
    }
    assert forall|j: int| !#[trigger] parent_component_at(f@, j) by {
        if 0 <= j < n {
        }
    }
    true
}

fn bad_unit_value(b: u32) -> (r: bool)
    ensures
        r == (!ieee::is_finite(b) || !ieee::in_unit_interval(b)),
{
    !ieee::bits_is_finite(b) || !(ieee::bits_ge(b, ieee::ZERO_BITS) && ieee::bits_le(b, ieee::ONE_BITS))
}

fn check_template(e: &TemplateEntry) -> (r: Option<ConfigError>)
    ensures
        r == template_violation(*e),
{
    let t = &e.config;
    if !file_path_is_safe(t.file.as_str()) {
        return Some(ConfigError::TemplateFilePath { template: e.name.clone(), file: t.file.clone() });
    }
    if bad_unit_value(t.threshold) {
        return Some(ConfigError::TemplateThreshold { template: e.name.clone(), threshold: t.threshold });
    }
    match t.roi {
        None => None,
        Some(r) => {
            if bad_unit_value(r.x_pct) {
                Some(ConfigError::TemplateRoiValue { template: e.name.clone(), field: RoiField::X, value: r.x_pct })
            } else if bad_unit_value(r.y_pct) {
                Some(ConfigError::TemplateRoiValue { template: e.name.clone(), field: RoiField::Y, value: r.y_pct })
            } else if bad_unit_value(r.w_pct) {
                Some(ConfigError::TemplateRoiValue { template: e.name.clone(), field: RoiField::W, value: r.w_pct })
            } else if bad_unit_value(r.h_pct) {
                Some(ConfigError::TemplateRoiValue { template: e.name.clone(), field: RoiField::H, value: r.h_pct })
            } else if ieee::bits_le(r.w_pct, ieee::ZERO_BITS) || ieee::bits_le(r.h_pct, ieee::ZERO_BITS) {
                Some(ConfigError::TemplateRoiEmpty { template: e.name.clone(), w_pct: r.w_pct, h_pct: r.h_pct })
            } else {
                None
            }
        },
    }
}

proof fn lemma_first_violation_prefix(ts: Seq<TemplateEntry>, i: int)
    requires
        0 <= i < ts.len(),
        forall|j: int| 0 <= j < i ==> template_violation(#[trigger] ts[j]).is_none(),
    ensures
        first_template_violation(ts) == first_template_violation(ts.subrange(i, ts.len() as int)),
    decreases i,
{
    if i > 0 {
        assert(template_violation(ts[0]).is_none());
        let rest = ts.drop_first();
        assert forall|j: int| 0 <= j < i - 1 implies template_violation(#[trigger] rest[j]).is_none() by {
            assert(rest[j] == ts[j + 1]);
        }
        lemma_first_violation_prefix(rest, i - 1);
        assert(rest.subrange(i - 1, rest.len() as int) =~= ts.subrange(i, ts.len() as int));
    } else {
        assert(ts.subrange(0, ts.len() as int) =~= ts);
    }
}

proof fn lemma_first_violation_none(ts: Seq<TemplateEntry>)
    requires
        forall|j: int| 0 <= j < ts.len() ==> template_violation(#[trigger] ts[j]).is_none(),
    ensures
        first_template_violation(ts).is_none(),
    decreases ts.len(),
{
    if ts.len() > 0 {
        let rest = ts.drop_first();
        assert forall|j: int| 0 <= j < rest.len() implies template_violation(#[trigger] rest[j]).is_none() by {
            assert(rest[j] == ts[j + 1]);
        }
        lemma_first_violation_none(rest);
        assert(template_violation(ts[0]).is_none());
    }
}

proof fn lemma_find_prefix(ts: Seq<TemplateEntry>, name: Seq<char>, i: int)
    requires
        0 <= i <= ts.len(),
        forall|j: int| 0 <= j < i ==> (#[trigger] ts[j]).name@ != name,
    ensures
        find_template(ts, name) == find_template(ts.subrange(i, ts.len() as int), name),
    decreases i,
{
    if i > 0 {
        let rest = ts.drop_first();
        assert(ts[0].name@ != name);
        assert forall|j: int| 0 <= j < i - 1 implies (#[trigger] rest[j]).name@ != name by {
            assert(rest[j] == ts[j + 1]);
        }
        lemma_find_prefix(rest, name, i - 1);
        assert(rest.subrange(i - 1, rest.len() as int) =~= ts.subrange(i, ts.len() as int));
    } else {
        assert(ts.subrange(0, ts.len() as int) =~= ts);
    }
}

/// The first template entry named `name`.
pub fn find_template_config<'a>(ts: &'a Vec<TemplateEntry>, name: &str) -> (r: Option<&'a TemplateConfig>)
    ensures
        match r {
            Some(t) => find_template(ts@, name@) == Some(*t),
            None => find_template(ts@, name@).is_none(),
        },
{
    let mut i: usize = 0;
    while i < ts.len()
        invariant
            i <= ts.len(),
            forall|j: int| 0 <= j < i ==> (#[trigger] ts@[j]).name@ != name@,
        decreases ts.len() - i,
    {
        if str_eq(ts[i].name.as_str(), name) {
            proof {
                lemma_find_prefix(ts@, name@, i as int);
                let sub = ts@.subrange(i as int, ts@.len() as int);
                assert(sub[0] == ts@[i as int]);
            }
            return Some(&ts[i].config);
        }
        i = i + 1;
    }
    proof {
        lemma_find_prefix(ts@, name@, i as int);
        assert(ts@.subrange(i as int, ts@.len() as int).len() == 0);
    }
    None
}

impl Config {
    /// Start-up bounds check. Refuses settings that would loosen the
    /// premium-currency guard (missing guard template, threshold below 0.80,
    /// no ROI), malformed templates, polling that would spin the capture loop,
    /// a coordinate cache padding outside `[1, 256]` and inverted `[input]`
    /// ranges. The first failing check, in the order of `config_violation`,
    /// is reported.
    pub fn validate(&self) -> (r: Result<(), BotError>)
        ensures
            r == match config_violation(*self) {
                None => Ok(()),
                Some(e) => Err(BotError::Config(e)),
            },
            r is Ok ==> ({
                forall|i: int|
                #![trigger self.templates@[i]]
                0 <= i < self.templates@.len() ==> {
                    let t = self.templates@[i].config;
                    &&& ieee::is_finite(t.threshold)
                    &&& ieee::ge(t.threshold, ieee::ZERO_BITS)
                    &&& ieee::le(t.threshold, ieee::ONE_BITS)
                    &&& t.roi matches Some(q) ==> {
                        &&& ieee::is_finite(q.x_pct) && ieee::ge(q.x_pct, ieee::ZERO_BITS) && ieee::le(q.x_pct, ieee::ONE_BITS)
                        &&& ieee::is_finite(q.y_pct) && ieee::ge(q.y_pct, ieee::ZERO_BITS) && ieee::le(q.y_pct, ieee::ONE_BITS)
                        &&& ieee::is_finite(q.w_pct) && ieee::gt(q.w_pct, ieee::ZERO_BITS) && ieee::le(q.w_pct, ieee::ONE_BITS)
                        &&& ieee::is_finite(q.h_pct) && ieee::gt(q.h_pct, ieee::ZERO_BITS) && ieee::le(q.h_pct, ieee::ONE_BITS)
                    }
                }
            }),
    {
        let ts = &self.templates;
        let mut i: usize = 0;
        while i < ts.len()
            invariant
                ts@ == self.templates@,
                i <= ts.len(),
                forall|j: int| 0 <= j < i ==> template_violation(#[trigger] ts@[j]).is_none(),
            decreases ts.len() - i,
        {
            match check_template(&ts[i]) {
                Some(e) => {
                    proof {
                        lemma_first_violation_prefix(ts@, i as int);
                        let sub = ts@.subrange(i as int, ts@.len() as int);
                        assert(sub[0] == ts@[i as int]);
                    }
                    return Err(BotError::Config(e));
                },
                None => {},
            }
            i = i + 1;
        }
        proof {
            lemma_first_violation_none(ts@);
        }
        match find_repeat(ts) {
            Some(j) => {
                return Err(BotError::Config(ConfigError::DuplicateTemplate { template: ts[j].name.clone() }));
            },
            None => {},
        }
        match find_template_config(ts, "reisseki_zero_guard") {
            None => {
                return Err(BotError::Config(ConfigError::GuardMissing));
            },
            Some(t) => {
                if ieee::bits_lt(t.threshold, REISSEKI_GUARD_MIN_THRESHOLD) {
                    return Err(BotError::Config(ConfigError::GuardThresholdTooLax { threshold: t.threshold }));
                }
                if t.roi.is_none() {
                    return Err(BotError::Config(ConfigError::GuardRoiMissing));
                }
            },
        }
        let p = &self.loop_.poll;
        if p.default_interval_ms < MIN_POLL_INTERVAL_MS {
            return Err(BotError::Config(ConfigError::PollIntervalTooSmall {
                field: PollField::DefaultInterval,
                value: p.default_interval_ms,
            }));
        }
        if p.post_battle_interval_ms < MIN_POLL_INTERVAL_MS {
            return Err(BotError::Config(ConfigError::PollIntervalTooSmall {
                field: PollField::PostBattleInterval,
                value: p.post_battle_interval_ms,
            }));
        }
        if p.debounce_interval_ms < MIN_POLL_INTERVAL_MS {
            return Err(BotError::Config(ConfigError::PollIntervalTooSmall {
                field: PollField::DebounceInterval,
                value: p.debounce_interval_ms,
            }));
        }
        if self.input.stability_poll_ms < MIN_STABILITY_POLL_MS {
            return Err(BotError::Config(ConfigError::StabilityPollTooSmall { value: self.input.stability_poll_ms }));
        }
        let pad = self.loop_.coord_cache.search_pad_px;
        if !(COORD_CACHE_MIN_PAD_PX <= pad && pad <= COORD_CACHE_MAX_PAD_PX) {
            return Err(BotError::Config(ConfigError::SearchPadOutOfRange { value: pad }));
        }
        let inp = &self.input;
        if inp.click_press_duration_min_ms > inp.click_press_duration_max_ms {
            return Err(BotError::Config(ConfigError::InputRangeInverted {
                field: InputRangeField::ClickPressDuration,
                min: inp.click_press_duration_min_ms,
                max: inp.click_press_duration_max_ms,
            }));
        }
        if inp.pre_click_min_ms > inp.pre_click_max_ms {
            return Err(BotError::Config(ConfigError::InputRangeInverted {
                field: InputRangeField::PreClick,
                min: inp.pre_click_min_ms,
                max: inp.pre_click_max_ms,
            }));
        }
        if inp.post_click_min_ms > inp.post_click_max_ms {
            return Err(BotError::Config(ConfigError::InputRangeInverted {
                field: InputRangeField::PostClick,
                min: inp.post_click_min_ms,
                max: inp.post_click_max_ms,
            }));
        }
        proof {
            law_valid_config_keeps_guard(*self);
        }
        Ok(())
    }
}


// ---------------------------------------------------------------------------
// Laws of the start-up checks
// ---------------------------------------------------------------------------

proof fn lemma_no_violation_each(ts: Seq<TemplateEntry>, i: int)
    requires
        first_template_violation(ts).is_none(),
        0 <= i < ts.len(),
    ensures
        template_violation(ts[i]).is_none(),
    decreases i,
{
    if i > 0 {
        lemma_no_violation_each(ts.drop_first(), i - 1);
        assert(ts.drop_first()[i - 1] == ts[i]);
    }
}

proof fn lemma_found_is_entry(ts: Seq<TemplateEntry>, name: Seq<char>) -> (i: int)
    requires
        find_template(ts, name).is_some(),
    ensures
        0 <= i < ts.len(),
        ts[i].name@ == name,
        find_template(ts, name) == Some(ts[i].config),
    decreases ts.len(),
{
    if ts[0].name@ == name {
        0
    } else {
        let j = lemma_found_is_entry(ts.drop_first(), name);
        assert(ts.drop_first()[j] == ts[j + 1]);
        j + 1
    }
}

/// A configuration that `validate` accepts keeps the guard on: every
/// template passes its own checks and no two share a name; the guard template exists, with a
/// threshold between 0.80 and 1.0 and an explicit ROI; every polling period
/// is at least 100 ms and the stability poll at least 50 ms; the cache
/// padding lies in `[1, 256]`; and every `[input]` minimum is at most its
/// maximum.
pub proof fn law_valid_config_keeps_guard(cfg: Config)
    requires
        config_violation(cfg).is_none(),
    ensures
        forall|i: int| 0 <= i < cfg.templates@.len() ==> #[trigger] template_violation(cfg.templates@[i]).is_none(),
        names_distinct(cfg.templates@),
        forall|i: int|
                #![trigger cfg.templates@[i]]
                0 <= i < cfg.templates@.len() ==> {
                    let t = cfg.templates@[i].config;
                    &&& ieee::is_finite(t.threshold)
                    &&& ieee::ge(t.threshold, ieee::ZERO_BITS)
                    &&& ieee::le(t.threshold, ieee::ONE_BITS)
                    &&& t.roi matches Some(q) ==> {
                        &&& ieee::is_finite(q.x_pct) && ieee::ge(q.x_pct, ieee::ZERO_BITS) && ieee::le(q.x_pct, ieee::ONE_BITS)
                        &&& ieee::is_finite(q.y_pct) && ieee::ge(q.y_pct, ieee::ZERO_BITS) && ieee::le(q.y_pct, ieee::ONE_BITS)
                        &&& ieee::is_finite(q.w_pct) && ieee::gt(q.w_pct, ieee::ZERO_BITS) && ieee::le(q.w_pct, ieee::ONE_BITS)
                        &&& ieee::is_finite(q.h_pct) && ieee::gt(q.h_pct, ieee::ZERO_BITS) && ieee::le(q.h_pct, ieee::ONE_BITS)
                    }
                },
        find_template(cfg.templates@, guard_template_view()) matches Some(t)
            && ieee::ge(t.threshold, REISSEKI_GUARD_MIN_THRESHOLD)
            && ieee::le(t.threshold, ieee::ONE_BITS)
            && t.roi.is_some(),
        cfg.loop_.poll.default_interval_ms >= MIN_POLL_INTERVAL_MS,
        cfg.loop_.poll.post_battle_interval_ms >= MIN_POLL_INTERVAL_MS,
        cfg.loop_.poll.debounce_interval_ms >= MIN_POLL_INTERVAL_MS,
        cfg.input.stability_poll_ms >= MIN_STABILITY_POLL_MS,
        COORD_CACHE_MIN_PAD_PX <= cfg.loop_.coord_cache.search_pad_px <= COORD_CACHE_MAX_PAD_PX,
        cfg.input.click_press_duration_min_ms <= cfg.input.click_press_duration_max_ms,
        cfg.input.pre_click_min_ms <= cfg.input.pre_click_max_ms,
        cfg.input.post_click_min_ms <= cfg.input.post_click_max_ms,
{
    let ts = cfg.templates@;
    assert forall|i: int| 0 <= i < ts.len() implies #[trigger] template_violation(ts[i]).is_none() by {
        lemma_no_violation_each(ts, i);
    }
    lemma_first_repeat_none(ts);
    assert forall|i: int| 0 <= i < ts.len() implies {
        let t = #[trigger] ts[i].config;
        &&& ieee::is_finite(t.threshold)
        &&& ieee::ge(t.threshold, ieee::ZERO_BITS)
        &&& ieee::le(t.threshold, ieee::ONE_BITS)
        &&& t.roi matches Some(q) ==> {
            &&& ieee::is_finite(q.x_pct) && ieee::ge(q.x_pct, ieee::ZERO_BITS) && ieee::le(q.x_pct, ieee::ONE_BITS)
            &&& ieee::is_finite(q.y_pct) && ieee::ge(q.y_pct, ieee::ZERO_BITS) && ieee::le(q.y_pct, ieee::ONE_BITS)
            &&& ieee::is_finite(q.w_pct) && ieee::gt(q.w_pct, ieee::ZERO_BITS) && ieee::le(q.w_pct, ieee::ONE_BITS)
            &&& ieee::is_finite(q.h_pct) && ieee::gt(q.h_pct, ieee::ZERO_BITS) && ieee::le(q.h_pct, ieee::ONE_BITS)
        }
    } by {
        assert(template_violation(ts[i]).is_none());
        assert(ieee::exponent_field(ieee::ZERO_BITS) == 0);
    }
    let g = lemma_found_is_entry(ts, guard_template_view());
    assert(template_violation(ts[g]).is_none());
    assert(ieee::exponent_field(REISSEKI_GUARD_MIN_THRESHOLD) == 126);
}

/// The default polling, input and cache settings pass every bound that
/// `validate` puts on them, and the default template threshold (0.90) is
/// strict enough for the guard.
pub proof fn law_defaults_within_bounds()
    ensures
        poll_violation(PollConfig::default_view(), InputConfig::default_view().stability_poll_ms).is_none(),
        input_range_violation(InputConfig::default_view()).is_none(),
        COORD_CACHE_MIN_PAD_PX <= CoordCacheConfig::default_view().search_pad_px <= COORD_CACHE_MAX_PAD_PX,
        ieee::in_unit_interval(THRESHOLD_0_90),
        ieee::ge(THRESHOLD_0_90, REISSEKI_GUARD_MIN_THRESHOLD),
{
    assert(ieee::exponent_field(THRESHOLD_0_90) == 126);
    assert(ieee::exponent_field(REISSEKI_GUARD_MIN_THRESHOLD) == 126);
}

} // verus!
