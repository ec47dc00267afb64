//! Decisions of the cycle: the step plan, the template search with its
//! stability check, coordinate cache and capture retry, the
//! premium-currency guard, click planning and the loop's stop rules.
//!
//! Capturing, sleeping and clicking are done by the program that drives
//! these state machines: it hands each capture (or capture failure) to a
//! `step` function and performs the action that comes back.
use vstd::prelude::*;
use crate::bot::cycle::{before, CycleReport, OffsetDateTime};
use crate::bot::humanize::{effective_radius, jitter_click_point, random_press_duration_ms};
use crate::config::{Config, InputConfig, PollConfig};
use crate::domain::step::{Step, StepLog};
use crate::error::BotError;
use crate::ieee;
use crate::platform::window::WindowRect;
use crate::vision::coord_cache::{
    cacheable, small_roi, small_roi_defined, small_roi_view, CachedCenter, CoordCache, CoordCacheStats,
};
use crate::vision::coords::client_to_screen;
use crate::vision::matcher::{find_in_rect_view, GrayFrame, Match, Matcher, Rect};
use crate::vision::template::{name_of, str_lt, Template, TemplateLibrary};

verus! {

/// Lower bound of every polling sleep, whatever the configuration says.
pub const POLL_SLEEP_FLOOR_MS: u64 = 50;

/// `x + 1`, saturating at `u32::MAX`.
pub open spec fn sat_inc(x: u32) -> u32 {
    if x < u32::MAX {
        (x + 1) as u32
    } else {
        x
    }
}

/// The retry threshold with 0 read as 1.
pub open spec fn effective_retry_threshold(threshold: u32) -> u32 {
    if threshold >= 1 {
        threshold
    } else {
        1
    }
}

/// Counts one more consecutive capture failure (saturating) and says
/// whether the failure must now be propagated: when the count reaches the
/// threshold, with 0 and 1 both meaning "the first failure".
pub fn should_propagate_capture_failure(consecutive_failures: &mut u32, threshold: u32) -> (r: bool)
    ensures
        *final(consecutive_failures) == sat_inc(*old(consecutive_failures)),
        r == (*final(consecutive_failures) >= effective_retry_threshold(threshold)),
{
    *consecutive_failures = consecutive_failures.saturating_add(1);
    let t = if threshold >= 1 { threshold } else { 1 };
    *consecutive_failures >= t
}

/// `max(ms, POLL_SLEEP_FLOOR_MS)`.
pub open spec fn floored(ms: u64) -> u64 {
    if ms >= POLL_SLEEP_FLOOR_MS {
        ms
    } else {
        POLL_SLEEP_FLOOR_MS
    }
}

fn floor_sleep(ms: u64) -> (r: u64)
    ensures
        r == floored(ms),
{
    if ms >= POLL_SLEEP_FLOOR_MS {
        ms
    } else {
        POLL_SLEEP_FLOOR_MS
    }
}

// ---------------------------------------------------------------------------
// Steps of a cycle
// ---------------------------------------------------------------------------

/// What a step does when its template is not seen in time.
#[derive(Debug, Clone, Copy, PartialEq, Eq, Structural)]
pub enum OnMiss {
    /// End the cycle with `TemplateWaitTimeout`.
    Fail,
    /// Log the step as skipped and go on.
    Skip,
}

/// How a step is run.
#[derive(Debug, Clone, Copy, PartialEq, Eq, Structural)]
pub enum StepPlan {
    /// Search and click the step's template; then sleep `min_wait_ms`
    /// without looking at the screen (0: no sleep).
    Click { on_miss: OnMiss, timeout_ms: u64, poll_ms: u64, min_wait_ms: u64 },
    /// Only assert the guard template; never clicks.
    Guard { timeout_ms: u64 },
}

/// The plan of each step, from the polling configuration.
pub open spec fn plan_view(step: Step, p: PollConfig) -> StepPlan {
    match step {
        Step::ApPlus | Step::UseMax | Step::UseButton | Step::TapIndicator | Step::Toubatsu => StepPlan::Click {
            on_miss: OnMiss::Fail,
            timeout_ms: p.default_timeout_ms,
            poll_ms: p.default_interval_ms,
            min_wait_ms: 0,
        },
        Step::ReissekiGuard => StepPlan::Guard { timeout_ms: p.default_timeout_ms },
        Step::ToubatsuStart => StepPlan::Click {
            on_miss: OnMiss::Fail,
            timeout_ms: p.default_timeout_ms,
            poll_ms: p.default_interval_ms,
            min_wait_ms: p.post_battle_min_wait_ms,
        },
        Step::Next1 => StepPlan::Click {
            on_miss: OnMiss::Fail,
            timeout_ms: p.post_battle_timeout_ms,
            poll_ms: p.post_battle_interval_ms,
            min_wait_ms: p.next1_settle_wait_ms,
        },
        Step::Next2 => StepPlan::Click {
            on_miss: OnMiss::Fail,
            timeout_ms: p.default_timeout_ms,
            poll_ms: p.default_interval_ms,
            min_wait_ms: p.next2_settle_wait_ms,
        },
        Step::Close => StepPlan::Click {
            on_miss: OnMiss::Skip,
            timeout_ms: p.close_button_timeout_ms,
            poll_ms: p.default_interval_ms,
            min_wait_ms: 0,
        },
    }
}

/// The plan of `step`: the guard only asserts; the battle start and the two
/// result clicks are followed by their hard waits; the close step may be
/// skipped; every other step fails the cycle when its template is missing.
pub fn plan_step(step: Step, poll: &PollConfig) -> (r: StepPlan)
    ensures
        r == plan_view(step, *poll),
{
    match step {
        Step::ApPlus | Step::UseMax | Step::UseButton | Step::TapIndicator | Step::Toubatsu => StepPlan::Click {
            on_miss: OnMiss::Fail,
            timeout_ms: poll.default_timeout_ms,
            poll_ms: poll.default_interval_ms,
            min_wait_ms: 0,
        },
        Step::ReissekiGuard => StepPlan::Guard { timeout_ms: poll.default_timeout_ms },
        Step::ToubatsuStart => StepPlan::Click {
            on_miss: OnMiss::Fail,
            timeout_ms: poll.default_timeout_ms,
            poll_ms: poll.default_interval_ms,
            min_wait_ms: poll.post_battle_min_wait_ms,
        },
        Step::Next1 => StepPlan::Click {
            on_miss: OnMiss::Fail,
            timeout_ms: poll.post_battle_timeout_ms,
            poll_ms: poll.post_battle_interval_ms,
            min_wait_ms: poll.next1_settle_wait_ms,
        },
        Step::Next2 => StepPlan::Click {
            on_miss: OnMiss::Fail,
            timeout_ms: poll.default_timeout_ms,
            poll_ms: poll.default_interval_ms,
            min_wait_ms: poll.next2_settle_wait_ms,
        },
        Step::Close => StepPlan::Click {
            on_miss: OnMiss::Skip,
            timeout_ms: poll.close_button_timeout_ms,
            poll_ms: poll.default_interval_ms,
            min_wait_ms: 0,
        },
    }
}

/// The log of a step whose search ended with `matched` (and `best_score`):
/// a click logs the larger of its score and the best score; a miss is a
/// skip or a `TemplateWaitTimeout` that reports the timeout and best score.
pub fn finish_step(
    step: Step,
    on_miss: OnMiss,
    matched: Option<Match>,
    best_score: u32,
    elapsed_ms: u64,
    timeout_ms: u64,
) -> (r: Result<StepLog, BotError>)
    ensures
        match (matched, on_miss) {
            (Some(m), _) => r == Ok::<StepLog, BotError>(
                StepLog { step, elapsed_ms, matched_score: Some(ieee::max_of(m.score, best_score)), skipped: false },
            ),
            (None, OnMiss::Skip) => r == Ok::<StepLog, BotError>(
                StepLog { step, elapsed_ms, matched_score: None, skipped: true },
            ),
            (None, OnMiss::Fail) => r matches Err(BotError::TemplateWaitTimeout { template, elapsed_ms: e, best_score: b })
                && template@ == step.template_view() && e == timeout_ms && b == best_score,
        },
{
    match (matched, on_miss) {
        (Some(m), _) => Ok(
            StepLog { step, elapsed_ms, matched_score: Some(ieee::bits_max(m.score, best_score)), skipped: false },
        ),
        (None, OnMiss::Skip) => Ok(StepLog { step, elapsed_ms, matched_score: None, skipped: true }),
        (None, OnMiss::Fail) => Err(
            BotError::TemplateWaitTimeout {
                template: String::from_str(step.template_name()),
                elapsed_ms: timeout_ms,
                best_score,
            },
        ),
    }
}

// ---------------------------------------------------------------------------
// Template search with stability check, coordinate cache and capture retry
// ---------------------------------------------------------------------------

/// Parameters of one template search.
#[derive(Debug, Clone, Copy, PartialEq, Eq, Structural)]
pub struct SearchSettings {
    /// Consecutive consistent matches before a click (at least 1).
    pub stability_required: u32,
    pub position_tol_px: u32,
    /// Score tolerance, IEEE-754 bits.
    pub score_tol: u32,
    pub capture_retry_threshold: u32,
    pub cache_enabled: bool,
    pub cache_pad_px: u32,
    /// Polling period while nothing is matched.
    pub poll_ms: u64,
    /// Polling period while a match waits for stability.
    pub stability_poll_ms: u64,
}

/// The settings of a search with polling period `poll_ms`.
pub fn search_settings(config: &Config, poll_ms: u64) -> (r: SearchSettings)
    ensures
        r.stability_required == (if config.input.stability_count >= 1 { config.input.stability_count } else { 1 }),
        r.position_tol_px == config.input.stability_position_tol_px,
        r.score_tol == config.input.stability_score_tol,
        r.capture_retry_threshold == config.loop_.poll.capture_retry_threshold,
        r.cache_enabled == config.loop_.coord_cache.enabled,
        r.cache_pad_px == config.loop_.coord_cache.search_pad_px,
        r.poll_ms == poll_ms,
        r.stability_poll_ms == config.input.stability_poll_ms,
{
    SearchSettings {
        stability_required: if config.input.stability_count >= 1 { config.input.stability_count } else { 1 },
        position_tol_px: config.input.stability_position_tol_px,
        score_tol: config.input.stability_score_tol,
        capture_retry_threshold: config.loop_.poll.capture_retry_threshold,
        cache_enabled: config.loop_.coord_cache.enabled,
        cache_pad_px: config.loop_.coord_cache.search_pad_px,
        poll_ms,
        stability_poll_ms: config.input.stability_poll_ms,
    }
}

/// What one capture attempt gave: a failure, or a frame together with the
/// template's normal ROI resolved for that frame's size.
pub enum Capture {
    Failed(BotError),
    Frame { frame: GrayFrame, full_roi: Rect },
}

/// What the driver must do after a search step.
#[derive(Debug)]
pub enum SearchAction {
    /// Return this error (too many consecutive capture failures).
    Propagate(BotError),
    /// The deadline has passed: return no match and the best score.
    GiveUp,
    /// Sleep the pre-click delay, click this match, sleep the post-click
    /// delay and return it with the best score.
    Click(Match),
    /// Sleep this many milliseconds and capture again.
    Wait(u64),
}

/// State of a template search.
pub struct ClickSearch {
    /// Best score seen (IEEE-754 bits; starts at 0.0).
    pub best_score: u32,
    /// The previous frame's match, while the stability check is pending.
    pub last_match: Option<Match>,
    /// Consecutive consistent matches so far.
    pub stable_count: u32,
    pub consecutive_capture_failures: u32,
    /// Successfully captured frames in a row that matched.
    pub matched_run: Ghost<nat>,
}

/// Absolute difference.
pub open spec fn abs_diff(a: u32, b: u32) -> int {
    if a >= b {
        a - b
    } else {
        b - a
    }
}

/// Two successive matches agree: centers within `pos_tol` on each axis and
/// scores within `score_tol`.
pub open spec fn consistent(prev: Match, m: Match, pos_tol: u32, score_tol: u32) -> bool {
    &&& abs_diff(m.center_x, prev.center_x) <= pos_tol
    &&& abs_diff(m.center_y, prev.center_y) <= pos_tol
    &&& ieee::f32_sub_abs_le(m.score, prev.score, score_tol)
}

/// The stability count after a frame that matched `m`.
pub open spec fn next_stable_count(last: Option<Match>, count: u32, m: Match, s: SearchSettings) -> int {
    match last {
        Some(p) => if consistent(p, m, s.position_tol_px, s.score_tol) {
            count + 1
        } else {
            1
        },
        None => count + 1,
    }
}

/// The cached center that a frame of size `w` x `h` would use.
pub open spec fn cached_for(cache: CoordCache, enabled: bool, w: u32, h: u32, name: Seq<char>) -> Option<CachedCenter> {
    if !enabled || cache.invalidates(w, h) {
        None
    } else {
        cache.entry(name)
    }
}

/// What one frame shows: with a cached center the small ROI is searched
/// first and the normal ROI only when it misses; otherwise the normal ROI.
/// The flag says whether the result came from the small ROI.
pub open spec fn frame_search(
    cached: Option<CachedCenter>,
    frame: GrayFrame,
    full_roi: Rect,
    tpl: Template,
    pad: u32,
) -> (Option<Match>, u32, bool) {
    match cached {
        Some(cc) => {
            let small = small_roi_view(cc, tpl.width, tpl.height, pad, frame.width, frame.height);
            let (m1, s1) = find_in_rect_view(frame, tpl, small);
            if m1.is_some() {
                (m1, s1, true)
            } else {
                let (m2, s2) = find_in_rect_view(frame, tpl, full_roi);
                (m2, s2, false)
            }
        },
        None => {
            let (m, s) = find_in_rect_view(frame, tpl, full_roi);
            (m, s, false)
        },
    }
}

/// The small ROI missed and the normal ROI was searched.
pub open spec fn fell_back(cached: Option<CachedCenter>, frame: GrayFrame, tpl: Template, pad: u32) -> bool {
    cached matches Some(cc) && find_in_rect_view(
        frame,
        tpl,
        small_roi_view(cc, tpl.width, tpl.height, pad, frame.width, frame.height),
    ).0.is_none()
}

/// Counters plus the given increments.
pub open spec fn stats_plus(s: CoordCacheStats, inv: bool, miss: bool, succ: bool, fail: bool, hit: bool) -> CoordCacheStats {
    CoordCacheStats {
        hits: (s.hits + if hit { 1int } else { 0int }) as u64,
        small_roi_misses: (s.small_roi_misses + if miss { 1int } else { 0int }) as u64,
        fallback_succeeded: (s.fallback_succeeded + if succ { 1int } else { 0int }) as u64,
        fallback_failed: (s.fallback_failed + if fail { 1int } else { 0int }) as u64,
        invalidations: (s.invalidations + if inv { 1int } else { 0int }) as u64,
    }
}

/// No counter is saturated.
pub open spec fn stats_room(s: CoordCacheStats) -> bool {
    &&& s.hits < u64::MAX
    &&& s.small_roi_misses < u64::MAX
    &&& s.fallback_succeeded < u64::MAX
    &&& s.fallback_failed < u64::MAX
    &&& s.invalidations < u64::MAX
}

/// The centers of a match fit in `i32` (frames are at most `i32::MAX`
/// pixels wide and high, as Win32 client rectangles are).
pub open spec fn match_in_i32(m: Match) -> bool {
    m.center_x <= i32::MAX && m.center_y <= i32::MAX
}

/// The frame can be searched: consistent buffer, Win32-sized.
pub open spec fn frame_ok(frame: GrayFrame) -> bool {
    frame.well_formed() && frame.width <= i32::MAX && frame.height <= i32::MAX
}

impl ClickSearch {
    /// Invariant of a running search.
    pub open spec fn well_formed(&self, s: SearchSettings) -> bool {
        &&& s.stability_required >= 1
        &&& self.stable_count < s.stability_required
        &&& (self.last_match.is_none() <==> self.stable_count == 0)
        &&& self.stable_count <= self.matched_run@
        &&& (self.last_match matches Some(m) ==> match_in_i32(m))
    }

    /// A fresh search: best score 0.0, nothing pending.
    pub fn new() -> (r: Self)
        ensures
            r.best_score == ieee::ZERO_BITS,
            r.last_match.is_none(),
            r.stable_count == 0,
            r.consecutive_capture_failures == 0,
            r.matched_run@ == 0,
    {
        ClickSearch {
            best_score: ieee::ZERO_BITS,
            last_match: None,
            stable_count: 0,
            consecutive_capture_failures: 0,
            matched_run: Ghost(0),
        }
    }

    /// Searches one frame: updates the cache's baseline, tries the small ROI
    /// around a cached center, falls back to the normal ROI and evicts the
    /// entry when the fallback finds the template.
    fn search_frame(
        settings: &SearchSettings,
        name: &str,
        tpl: &Template,
        cache: &mut CoordCache,
        frame: &GrayFrame,
        full_roi: Rect,
    ) -> (r: (Option<Match>, u32, bool))
        requires
            frame_ok(*frame),
            tpl.well_formed(),
            stats_room(old(cache).stats_view()),
            old(cache).entry(name@) matches Some(c) ==> small_roi_defined(c, tpl.width, tpl.height, settings.cache_pad_px),
        ensures
            ({
                let cached = cached_for(*old(cache), settings.cache_enabled, frame.width, frame.height, name@);
                let fb = fell_back(cached, *frame, *tpl, settings.cache_pad_px);
                let inv = settings.cache_enabled && old(cache).invalidates(frame.width, frame.height);
                &&& r == frame_search(cached, *frame, full_roi, *tpl, settings.cache_pad_px)
                &&& final(cache).stats_view() == stats_plus(
                    old(cache).stats_view(),
                    inv,
                    fb,
                    fb && r.0.is_some(),
                    fb && r.0.is_none(),
                    false,
                )
                &&& settings.cache_enabled ==> final(cache).baseline_view() == Some((frame.width, frame.height))
                &&& !settings.cache_enabled ==> final(cache).baseline_view() == old(cache).baseline_view()
                &&& forall|n: Seq<char>| n != name@ ==> #[trigger] final(cache).entry(n) == (if inv { None } else { old(cache).entry(n) })
                &&& final(cache).entry(name@) == (if fb && r.0.is_some() { None } else if inv { None } else { old(cache).entry(name@) })
            }),
            r.0 matches Some(m) ==> match_in_i32(m),
    {
        let matcher = Matcher::new();
        let w = frame.width;
        let h = frame.height;
        if settings.cache_enabled {
            cache.observe(w, h);
        }
        let cached = if settings.cache_enabled { cache.lookup(name) } else { None };
        proof {
            if settings.cache_enabled && old(cache).invalidates(w, h) {
                assert(cache.entry(name@).is_none());
            }
            assert(cached == cached_for(*old(cache), settings.cache_enabled, w, h, name@));
        }
        match cached {
            Some(cc) => {
                let small = small_roi(cc, tpl.width, tpl.height, settings.cache_pad_px, w, h);
                let (m1, s1) = matcher.find_in_rect(frame, tpl, small);
                if m1.is_some() {
                    (m1, s1, true)
                } else {
                    cache.note_small_roi_miss();
                    let (m2, s2) = matcher.find_in_rect(frame, tpl, full_roi);
                    if m2.is_some() {
                        cache.note_fallback_succeeded();
                        cache.evict(name);
                    } else {
                        cache.note_fallback_failed();
                    }
                    (m2, s2, false)
                }
            },
            None => {
                let (m, s) = matcher.find_in_rect(frame, tpl, full_roi);
                (m, s, false)
            },
        }
    }

    /// One round of the search. A capture failure is retried until
    /// `capture_retry_threshold` consecutive failures, then propagated; the
    /// search gives up once the deadline has passed; a frame whose match has
    /// been consistent for `stability_required` frames in a row is clicked
    /// (its center recorded in the cache first). While a match is pending the
    /// next capture comes after `stability_poll_ms`, otherwise after
    /// `poll_ms`, never sooner than `POLL_SLEEP_FLOOR_MS`.
    pub fn step(
        &mut self,
        settings: &SearchSettings,
        name: &str,
        tpl: &Template,
        cache: &mut CoordCache,
        capture: Capture,
        past_deadline: bool,
    ) -> (r: SearchAction)
        requires
            old(self).well_formed(*settings),
            tpl.well_formed(),
            stats_room(old(cache).stats_view()),
            old(cache).entry(name@) matches Some(c) ==> small_roi_defined(c, tpl.width, tpl.height, settings.cache_pad_px),
            capture matches Capture::Frame { frame, .. } ==> frame_ok(frame),
        ensures
            match capture {
                Capture::Failed(err) => {
                    let n = sat_inc(old(self).consecutive_capture_failures);
                    &&& final(self).consecutive_capture_failures == n
                    &&& final(self).best_score == old(self).best_score
                    &&& final(self).last_match == old(self).last_match
                    &&& final(self).stable_count == old(self).stable_count
                    &&& final(self).matched_run == old(self).matched_run
                    &&& r == if n >= effective_retry_threshold(settings.capture_retry_threshold) {
                        SearchAction::Propagate(err)
                    } else if past_deadline {
                        SearchAction::GiveUp
                    } else {
                        SearchAction::Wait(floored(settings.poll_ms))
                    }
                    &&& forall|k: Seq<char>| #[trigger] final(cache).entry(k) == old(cache).entry(k)
                    &&& final(cache).stats_view() == old(cache).stats_view()
                    &&& final(cache).baseline_view() == old(cache).baseline_view()
                },
                Capture::Frame { frame, full_roi } => {
                    let cached = cached_for(*old(cache), settings.cache_enabled, frame.width, frame.height, name@);
                    let (m, score, hit) = frame_search(cached, frame, full_roi, *tpl, settings.cache_pad_px);
                    &&& final(self).consecutive_capture_failures == 0
                    &&& final(self).best_score == (if ieee::gt(score, old(self).best_score) { score } else { old(self).best_score })
                    &&& match m {
                        Some(mm) => {
                            let c = next_stable_count(old(self).last_match, old(self).stable_count, mm, *settings);
                            &&& final(self).last_match == Some(mm)
                            &&& final(self).stable_count == c
                            &&& final(self).matched_run@ == old(self).matched_run@ + 1
                            &&& r == if c >= settings.stability_required {
                                SearchAction::Click(mm)
                            } else if past_deadline {
                                SearchAction::GiveUp
                            } else {
                                SearchAction::Wait(floored(settings.stability_poll_ms))
                            }
                            &&& (c >= settings.stability_required && settings.cache_enabled && cacheable(name@)) ==>
                                final(cache).entry(name@) == Some(CachedCenter { center_x: mm.center_x, center_y: mm.center_y, last_score: mm.score })
                        },
                        None => {
                            &&& final(self).last_match.is_none()
                            &&& final(self).stable_count == 0
                            &&& final(self).matched_run@ == 0
                            &&& r == if past_deadline {
                                SearchAction::GiveUp
                            } else {
                                SearchAction::Wait(floored(settings.poll_ms))
                            }
                        },
                    }
                    &&& ({
                        let inv = settings.cache_enabled && old(cache).invalidates(frame.width, frame.height);
                        let fb = fell_back(cached, frame, *tpl, settings.cache_pad_px);
                        let clicked = r is Click && settings.cache_enabled;
                        &&& final(cache).stats_view() == stats_plus(
                            old(cache).stats_view(),
                            inv,
                            fb,
                            fb && m.is_some(),
                            fb && m.is_none(),
                            hit && clicked,
                        )
                        &&& settings.cache_enabled ==> final(cache).baseline_view() == Some((frame.width, frame.height))
                        &&& !settings.cache_enabled ==> final(cache).baseline_view() == old(cache).baseline_view()
                        &&& forall|k: Seq<char>|
                            k != name@ ==> #[trigger] final(cache).entry(k) == (if inv { None } else { old(cache).entry(k) })
                        &&& !(clicked && cacheable(name@)) ==> final(cache).entry(name@) == (if fb && m.is_some() {
                            None
                        } else if inv {
                            None
                        } else {
                            old(cache).entry(name@)
                        })
                    })
                },
            },
            !(r is Click) ==> final(self).well_formed(*settings),
            ({
                // A frame whose match jumped from the previous one (score by
                // more than the tolerance, as `f32` computes it, or center by
                // more than the position tolerance) restarts the count.
                &&& capture is Frame
                &&& final(self).last_match matches Some(mm)
                &&& old(self).last_match matches Some(prev)
                &&& (!ieee::f32_sub_abs_le(mm.score, prev.score, settings.score_tol)
                    || mm.center_x > prev.center_x + settings.position_tol_px
                    || prev.center_x > mm.center_x + settings.position_tol_px
                    || mm.center_y > prev.center_y + settings.position_tol_px
                    || prev.center_y > mm.center_y + settings.position_tol_px)
            }) ==> final(self).stable_count == 1 && (settings.stability_required >= 2 ==> !(r is Click)),
            r matches SearchAction::Click(m) ==> final(self).stable_count >= settings.stability_required
                && final(self).matched_run@ >= settings.stability_required && final(self).last_match == Some(m),
    {
        match capture {
            Capture::Failed(err) => {
                let propagate = should_propagate_capture_failure(
                    &mut self.consecutive_capture_failures,
                    settings.capture_retry_threshold,
                );
                if propagate {
                    return SearchAction::Propagate(err);
                }
                if past_deadline {
                    return SearchAction::GiveUp;
                }
                SearchAction::Wait(floor_sleep(settings.poll_ms))
            },
            Capture::Frame { frame, full_roi } => {
                self.consecutive_capture_failures = 0;
                let (matched, score, hit) = Self::search_frame(settings, name, tpl, cache, &frame, full_roi);
                if ieee::bits_gt(score, self.best_score) {
                    self.best_score = score;
                }
                match matched {
                    Some(m) => {
                        let is_consistent = match self.last_match {
                            Some(prev) => {
                                let dx = if m.center_x >= prev.center_x {
                                    m.center_x - prev.center_x
                                } else {
                                    prev.center_x - m.center_x
                                };
                                let dy = if m.center_y >= prev.center_y {
                                    m.center_y - prev.center_y
                                } else {
                                    prev.center_y - m.center_y
                                };
                                dx <= settings.position_tol_px && dy <= settings.position_tol_px
                                    && ieee::bits_sub_abs_le(m.score, prev.score, settings.score_tol)
                            },
                            None => true,
                        };
                        if is_consistent {
                            self.stable_count = self.stable_count + 1;
                        } else {
                            self.stable_count = 1;
                        }
                        self.last_match = Some(m);
                        self.matched_run = Ghost(self.matched_run@ + 1);
                        if self.stable_count >= settings.stability_required {
                            if settings.cache_enabled {
                                cache.record(
                                    name,
                                    CachedCenter { center_x: m.center_x, center_y: m.center_y, last_score: m.score },
                                );
                                if hit {
                                    cache.note_hit();
                                }
                            }
                            return SearchAction::Click(m);
                        }
                        if past_deadline {
                            return SearchAction::GiveUp;
                        }
                        SearchAction::Wait(floor_sleep(settings.stability_poll_ms))
                    },
                    None => {
                        self.last_match = None;
                        self.stable_count = 0;
                        self.matched_run = Ghost(0);
                        if past_deadline {
                            return SearchAction::GiveUp;
                        }
                        SearchAction::Wait(floor_sleep(settings.poll_ms))
                    },
                }
            },
        }
    }
}

// ---------------------------------------------------------------------------
// The premium-currency guard
// ---------------------------------------------------------------------------

/// What the driver must do after a guard step. There is no click: the
/// guard only looks.
#[derive(Debug)]
pub enum GuardOutcome {
    /// The zero-state template was seen; the cycle goes on with this log.
    Passed(StepLog),
    /// Stop the cycle with this error (`ReissekiGuardFailed`, or the capture
    /// error after too many consecutive capture failures).
    Failed(BotError),
    /// Sleep this many milliseconds and capture again.
    Wait(u64),
}

/// State of the guard check.
pub struct GuardCheck {
    /// Best score seen (IEEE-754 bits; starts at 0.0).
    pub best_score: u32,
    pub consecutive_capture_failures: u32,
}

impl GuardCheck {
    pub fn new() -> (r: Self)
        ensures
            r.best_score == ieee::ZERO_BITS,
            r.consecutive_capture_failures == 0,
    {
        GuardCheck { best_score: ieee::ZERO_BITS, consecutive_capture_failures: 0 }
    }

    /// One round of the guard: the guard template is searched in its ROI
    /// only (never through the coordinate cache). A match passes; once the
    /// deadline has passed without one the guard fails with
    /// `ReissekiGuardFailed` and the best score; capture failures are retried
    /// up to `capture_retry_threshold` in a row and then propagated. The next
    /// capture comes after `interval_ms`, never sooner than
    /// `POLL_SLEEP_FLOOR_MS`.
    pub fn step(
        &mut self,
        tpl: &Template,
        capture_retry_threshold: u32,
        interval_ms: u64,
        capture: Capture,
        past_deadline: bool,
        elapsed_ms: u64,
    ) -> (r: GuardOutcome)
        requires
            tpl.well_formed(),
            capture matches Capture::Frame { frame, .. } ==> frame.well_formed(),
        ensures
            match capture {
                Capture::Failed(err) => {
                    let n = sat_inc(old(self).consecutive_capture_failures);
                    &&& final(self).consecutive_capture_failures == n
                    &&& final(self).best_score == old(self).best_score
                    &&& r == if n >= effective_retry_threshold(capture_retry_threshold) {
                        GuardOutcome::Failed(err)
                    } else if past_deadline {
                        GuardOutcome::Failed(BotError::ReissekiGuardFailed { best_score: old(self).best_score })
                    } else {
                        GuardOutcome::Wait(floored(interval_ms))
                    }
                },
                Capture::Frame { frame, full_roi } => {
                    let (m, score) = find_in_rect_view(frame, *tpl, full_roi);
                    let best = if ieee::gt(score, old(self).best_score) { score } else { old(self).best_score };
                    &&& final(self).consecutive_capture_failures == 0
                    &&& final(self).best_score == best
                    &&& r == match m {
                        Some(mm) => GuardOutcome::Passed(
                            StepLog { step: Step::ReissekiGuard, elapsed_ms, matched_score: Some(mm.score), skipped: false },
                        ),
                        None => if past_deadline {
                            GuardOutcome::Failed(BotError::ReissekiGuardFailed { best_score: best })
                        } else {
                            GuardOutcome::Wait(floored(interval_ms))
                        },
                    }
                },
            },
    {
        match capture {
            Capture::Failed(err) => {
                let propagate = should_propagate_capture_failure(
                    &mut self.consecutive_capture_failures,
                    capture_retry_threshold,
                );
                if propagate {
                    return GuardOutcome::Failed(err);
                }
                if past_deadline {
                    return GuardOutcome::Failed(BotError::ReissekiGuardFailed { best_score: self.best_score });
                }
                GuardOutcome::Wait(floor_sleep(interval_ms))
            },
            Capture::Frame { frame, full_roi } => {
                self.consecutive_capture_failures = 0;
                let (matched, score) = Matcher::new().find_in_rect(&frame, tpl, full_roi);
                if ieee::bits_gt(score, self.best_score) {
                    self.best_score = score;
                }
                match matched {
                    Some(m) => GuardOutcome::Passed(
                        StepLog { step: Step::ReissekiGuard, elapsed_ms, matched_score: Some(m.score), skipped: false },
                    ),
                    None => {
                        if past_deadline {
                            return GuardOutcome::Failed(BotError::ReissekiGuardFailed { best_score: self.best_score });
                        }
                        GuardOutcome::Wait(floor_sleep(interval_ms))
                    },
                }
            },
        }
    }
}

// ---------------------------------------------------------------------------
// Click planning
// ---------------------------------------------------------------------------

/// Where and how long to click.
#[derive(Debug, Clone, Copy, PartialEq, Eq, Structural)]
pub struct ClickPlan {
    pub screen_x: i32,
    pub screen_y: i32,
    pub press_ms: u64,
}

/// The click for a match: its center jittered by up to
/// `click_jitter_radius_px` on each axis, moved to the screen by the client
/// origin, with a press duration drawn from the configured range.
pub fn plan_click(m: Match, rect: WindowRect, input: &InputConfig) -> (r: ClickPlan)
    requires
        match_in_i32(m),
        ({
            let e = effective_radius(input.click_jitter_radius_px);
            &&& m.center_x + e <= i32::MAX
            &&& m.center_y + e <= i32::MAX
            &&& i32::MIN <= rect.screen_x + m.center_x - e
            &&& rect.screen_x + m.center_x + e <= i32::MAX
            &&& i32::MIN <= rect.screen_y + m.center_y - e
            &&& rect.screen_y + m.center_y + e <= i32::MAX
        }),
    ensures
        ({
            let e = effective_radius(input.click_jitter_radius_px);
            &&& rect.screen_x + m.center_x - e <= r.screen_x <= rect.screen_x + m.center_x + e
            &&& rect.screen_y + m.center_y - e <= r.screen_y <= rect.screen_y + m.center_y + e
            &&& input.click_jitter_radius_px == 0 ==> r.screen_x == rect.screen_x + m.center_x
                && r.screen_y == rect.screen_y + m.center_y
        }),
        input.click_press_duration_max_ms <= input.click_press_duration_min_ms ==> r.press_ms
            == input.click_press_duration_min_ms,
        input.click_press_duration_min_ms < input.click_press_duration_max_ms ==> input.click_press_duration_min_ms
            <= r.press_ms <= input.click_press_duration_max_ms,
{
    let radius = input.click_jitter_radius_px;
    let (cx, cy) = jitter_click_point((m.center_x as i32, m.center_y as i32), radius);
    let (sx, sy) = client_to_screen(rect.screen_x, rect.screen_y, cx, cy);
    let press_ms = random_press_duration_ms(input.click_press_duration_min_ms, input.click_press_duration_max_ms);
    ClickPlan { screen_x: sx, screen_y: sy, press_ms }
}

// ---------------------------------------------------------------------------
// The loop
// ---------------------------------------------------------------------------

/// Whether the loop runs another cycle.
#[derive(Debug, Clone, Copy, PartialEq, Eq, Structural)]
pub enum LoopDecision {
    /// `max_cycles` cycles have run (0 never stops the loop).
    MaxCyclesReached,
    /// The daily cutoff has come.
    DailyCutoffReached,
    RunCycle,
}

/// The cycle limit: the command line's when given, else the configuration's.
pub fn effective_max_cycles(cli_max_cycles: Option<u32>, config_max_cycles: u32) -> (r: u32)
    ensures
        r == match cli_max_cycles {
            Some(n) => n,
            None => config_max_cycles,
        },
{
    match cli_max_cycles {
        Some(n) => n,
        None => config_max_cycles,
    }
}

/// Checked before every cycle: first the cycle limit, then the daily cutoff.
pub fn loop_decision(count: u32, max_cycles: u32, now: OffsetDateTime, next_cut: OffsetDateTime) -> (r: LoopDecision)
    ensures
        r == if max_cycles > 0 && count >= max_cycles {
            LoopDecision::MaxCyclesReached
        } else if !before(now, next_cut) {
            LoopDecision::DailyCutoffReached
        } else {
            LoopDecision::RunCycle
        },
{
    if max_cycles > 0 && count >= max_cycles {
        return LoopDecision::MaxCyclesReached;
    }
    if !(now.timestamp < next_cut.timestamp || (now.timestamp == next_cut.timestamp && now.nanos < next_cut.nanos)) {
        return LoopDecision::DailyCutoffReached;
    }
    LoopDecision::RunCycle
}

/// Whether clicks are suppressed: the command line override when given,
/// else the configuration.
pub fn effective_dry_run(dry_run_override: Option<bool>, config_dry_run: bool) -> (r: bool)
    ensures
        r == match dry_run_override {
            Some(b) => b,
            None => config_dry_run,
        },
{
    match dry_run_override {
        Some(b) => b,
        None => config_dry_run,
    }
}

// ---------------------------------------------------------------------------
// Single detection pass
// ---------------------------------------------------------------------------

/// One row of a detection pass.
#[derive(Debug, Clone)]
pub struct DetectionRow {
    pub template: String,
    pub matched: bool,
    /// Best score (IEEE-754 bits).
    pub score: u32,
    pub center: Option<(u32, u32)>,
}

/// Matches every template once in `frame`, each inside its own ROI
/// (`rois[i]` belongs to `templates[i]`), without the coordinate cache.
pub fn detect_rows(frame: &GrayFrame, templates: &Vec<Template>, rois: &Vec<Rect>) -> (r: Vec<DetectionRow>)
    requires
        frame.well_formed(),
        templates@.len() == rois@.len(),
        forall|i: int| 0 <= i < templates@.len() ==> (#[trigger] templates@[i]).well_formed(),
    ensures
        r@.len() == templates@.len(),
        forall|i: int| 0 <= i < r@.len() ==> {
            let (m, s) = find_in_rect_view(*frame, templates@[i], rois@[i]);
            &&& (#[trigger] r@[i]).template@ == templates@[i].name@
            &&& r@[i].matched == m.is_some()
            &&& r@[i].score == s
            &&& r@[i].center == match m {
                Some(mm) => Some((mm.center_x, mm.center_y)),
                None => None,
            }
        },
{
    let matcher = Matcher::new();
    let mut out: Vec<DetectionRow> = Vec::new();
    let mut i: usize = 0;
    while i < templates.len()
        invariant
            frame.well_formed(),
            templates@.len() == rois@.len(),
            forall|j: int| 0 <= j < templates@.len() ==> (#[trigger] templates@[j]).well_formed(),
            i <= templates@.len(),
            out@.len() == i,
            forall|j: int| 0 <= j < i ==> {
                let (m, s) = find_in_rect_view(*frame, templates@[j], rois@[j]);
                &&& (#[trigger] out@[j]).template@ == templates@[j].name@
                &&& out@[j].matched == m.is_some()
                &&& out@[j].score == s
                &&& out@[j].center == match m {
                    Some(mm) => Some((mm.center_x, mm.center_y)),
                    None => None,
                }
            },
        decreases templates@.len() - i,
    {
        let tpl = &templates[i];
        let (m, s) = matcher.find_in_rect(frame, tpl, rois[i]);
        let center = match m {
            Some(mm) => Some((mm.center_x, mm.center_y)),
            None => None,
        };
        out.push(DetectionRow { template: tpl.name.clone(), matched: m.is_some(), score: s, center });
        i = i + 1;
    }
    out
}


/// `row` reports the search of `tpl` inside `roi` of `frame`.
pub open spec fn row_is(row: DetectionRow, frame: GrayFrame, tpl: Template, roi: Rect) -> bool {
    let (m, s) = find_in_rect_view(frame, tpl, roi);
    &&& row.template@ == tpl.name@
    &&& row.matched == m.is_some()
    &&& row.score == s
    &&& row.center == match m {
        Some(mm) => Some((mm.center_x, mm.center_y)),
        None => None,
    }
}

/// `row` reports the search of one of the templates `ts` inside its ROI.
pub open spec fn row_of_a_template(row: DetectionRow, frame: GrayFrame, ts: Seq<Template>, rois: Seq<Rect>) -> bool {
    exists|k: int| 0 <= k < ts.len() && #[trigger] row_is(row, frame, ts[k], rois[k])
}

/// One detection row for every template of the library, in ascending
/// order of template name (as `str` sorts); `rois[k]` is the ROI of the
/// library's template `k`. No coordinate cache is used.
pub fn detect_sorted(frame: &GrayFrame, lib: &TemplateLibrary, rois: &Vec<Rect>) -> (r: Vec<DetectionRow>)
    requires
        frame.well_formed(),
        rois@.len() == lib.templates_view().len(),
    ensures
        r@.len() == lib.templates_view().len(),
        forall|p: int| 0 <= p < r@.len() ==> #[trigger] row_of_a_template(r@[p], *frame, lib.templates_view(), rois@),
        forall|k: int|
            #![trigger lib.templates_view()[k]]
            0 <= k < r@.len() ==> exists|p: int|
                0 <= p < r@.len() && (#[trigger] r@[p]).template@ == lib.templates_view()[k].name@,
        forall|p: int, q: int|
            0 <= p && q == p + 1 && q < r@.len() ==> str_lt((#[trigger] r@[p]).template@, (#[trigger] r@[q]).template@),
{
    let ts = lib.templates();
    let order = lib.name_order();
    let matcher = Matcher::new();
    let mut out: Vec<DetectionRow> = Vec::new();
    let mut p: usize = 0;
    while p < order.len()
        invariant
            frame.well_formed(),
            ts@ == lib.templates_view(),
            crate::vision::template::templates_well_formed(ts@),
            rois@.len() == ts@.len(),
            order@.len() == ts@.len(),
            forall|a: int| 0 <= a < order@.len() ==> (#[trigger] order@[a]) < order@.len(),
            p <= order@.len(),
            out@.len() == p,
            forall|j: int| 0 <= j < p ==> #[trigger] row_is(out@[j], *frame, ts@[order@[j] as int], rois@[order@[j] as int]),
        decreases order.len() - p,
    {
        let k = order[p];
        let tpl = &ts[k];
        let (m, s) = matcher.find_in_rect(frame, tpl, rois[k]);
        let center = match m {
            Some(mm) => Some((mm.center_x, mm.center_y)),
            None => None,
        };
        out.push(DetectionRow { template: tpl.name.clone(), matched: m.is_some(), score: s, center });
        proof {
            assert(row_is(out@[p as int], *frame, ts@[order@[p as int] as int], rois@[order@[p as int] as int]));
        }
        p = p + 1;
    }
    proof {
        let n = out@.len();
        assert forall|a: int| 0 <= a < n implies #[trigger] row_of_a_template(out@[a], *frame, lib.templates_view(), rois@) by {
            let k = order@[a] as int;
            assert(row_is(out@[a], *frame, lib.templates_view()[k], rois@[k]));
        }
        assert forall|k: int| #![trigger lib.templates_view()[k]] 0 <= k < n implies exists|a: int|
            0 <= a < n && (#[trigger] out@[a]).template@ == lib.templates_view()[k].name@ by {
            assert(order@.contains(k as usize));
            let w = choose|w: int| 0 <= w < order@.len() && order@[w] == k as usize;
            assert(row_is(out@[w], *frame, ts@[order@[w] as int], rois@[order@[w] as int]));
        }
        assert forall|a: int, b: int| 0 <= a && b == a + 1 && b < n implies str_lt(
            (#[trigger] out@[a]).template@,
            (#[trigger] out@[b]).template@,
        ) by {
            assert(row_is(out@[a], *frame, ts@[order@[a] as int], rois@[order@[a] as int]));
            assert(row_is(out@[b], *frame, ts@[order@[b] as int], rois@[order@[b] as int]));
            assert(str_lt(name_of(ts@, order@[a] as int), name_of(ts@, order@[b] as int)));
        }
    }
    out
}

// ---------------------------------------------------------------------------
// Progress through one cycle
// ---------------------------------------------------------------------------

/// A log that may stand at the guard's place: the guard template was seen.
pub open spec fn guard_log_passed(log: StepLog) -> bool {
    log.step == Step::ReissekiGuard ==> (log.matched_score.is_some() && !log.skipped)
}

/// Only the close step may be skipped.
pub open spec fn skip_only_close(log: StepLog) -> bool {
    log.skipped ==> log.step == Step::Close
}

/// The logs of the steps of one cycle done so far. A step that fails ends
/// the cycle with its error, so the logs always follow `Step::all` from the
/// start, the guard is logged only when it passed, and only the close step
/// is ever logged as skipped.
pub struct CycleRun {
    logs: Vec<StepLog>,
}

impl CycleRun {
    pub closed spec fn logs_view(&self) -> Seq<StepLog> {
        self.logs@
    }

    pub open spec fn well_formed(&self) -> bool {
        &&& self.logs_view().len() <= 10
        &&& forall|i: int|
            0 <= i < self.logs_view().len() ==> (#[trigger] self.logs_view()[i]).step == Step::all_view()[i]
                && guard_log_passed(self.logs_view()[i]) && skip_only_close(self.logs_view()[i])
    }

    /// The step to run next (`None` once the cycle is complete).
    pub open spec fn next_view(&self) -> Option<Step> {
        if self.logs_view().len() < 10 {
            Some(Step::all_view()[self.logs_view().len() as int])
        } else {
            None
        }
    }

    pub fn new() -> (r: Self)
        ensures
            r.well_formed(),
            r.logs_view() == Seq::<StepLog>::empty(),
    {
        CycleRun { logs: Vec::new() }
    }

    pub fn next_step(&self) -> (r: Option<Step>)
        requires
            self.well_formed(),
        ensures
            r == self.next_view(),
    {
        let n = self.logs.len();
        if n < 10 {
            let all = Step::all();
            Some(all[n])
        } else {
            None
        }
    }

    /// Logs the step that was due. The guard's log must record its match,
    /// and only the close step may be skipped.
    pub fn record(&mut self, log: StepLog)
        requires
            old(self).well_formed(),
            old(self).next_view() == Some(log.step),
            guard_log_passed(log),
            skip_only_close(log),
        ensures
            final(self).well_formed(),
            final(self).logs_view() == old(self).logs_view().push(log),
    {
        self.logs.push(log);
    }

    /// The report of the completed cycle: every step logged, in order.
    pub fn finish(self, started_at: OffsetDateTime, completed_at: OffsetDateTime) -> (r: CycleReport)
        requires
            self.well_formed(),
            self.next_view().is_none(),
        ensures
            r.started_at == started_at,
            r.completed_at == completed_at,
            r.steps@ == self.logs_view(),
            r.steps@.len() == 10,
            forall|i: int| 0 <= i < 10 ==> (#[trigger] r.steps@[i]).step == Step::all_view()[i],
            forall|i: int| 0 <= i < 10 && (#[trigger] r.steps@[i]).skipped ==> r.steps@[i].step == Step::Close,
            r.success,
            r.error.is_none(),
    {
        CycleReport { started_at, completed_at, steps: self.logs, success: true, error: None }
    }
}

// ---------------------------------------------------------------------------
// Laws
// ---------------------------------------------------------------------------

/// The failure count after `n` more consecutive capture failures from `start`.
pub open spec fn failures_after(start: u32, n: nat) -> u32
    decreases n,
{
    if n == 0 {
        start
    } else {
        sat_inc(failures_after(start, (n - 1) as nat))
    }
}

/// From a reset counter, `n` consecutive capture failures count to `n`, and
/// the `n`-th one is propagated exactly when `n` reaches the threshold (0
/// read as 1): every earlier failure is tolerated and every later one is
/// propagated. A counter at `u32::MAX` stays there.
pub proof fn law_capture_retry_threshold(threshold: u32, n: nat)
    requires
        n <= u32::MAX,
    ensures
        failures_after(0, n) == n,
        (failures_after(0, n) >= effective_retry_threshold(threshold)) <==> (n >= effective_retry_threshold(threshold)),
        forall|k: nat| k <= n ==> #[trigger] failures_after(0, k) <= failures_after(0, n),
        failures_after(u32::MAX, n) == u32::MAX,
    decreases n,
{
    if n > 0 {
        law_capture_retry_threshold(threshold, (n - 1) as nat);
        assert forall|k: nat| k <= n implies #[trigger] failures_after(0, k) <= failures_after(0, n) by {
            if k < n {
                assert(failures_after(0, k) <= failures_after(0, (n - 1) as nat));
            }
        }
    }
}

/// In every cycle the guard runs once, right after the max-use step and
/// right before the use button; its plan only asserts (it never clicks);
/// and the close step is the only one whose miss is a skip rather than a
/// failure of the cycle.
pub proof fn law_guard_precedes_use(p: PollConfig)
    ensures
        Step::all_view().len() == 10,
        Step::all_view()[1] == Step::UseMax,
        Step::all_view()[2] == Step::ReissekiGuard,
        Step::all_view()[3] == Step::UseButton,
        forall|i: int| 0 <= i < 10 ==> (#[trigger] Step::all_view()[i] == Step::ReissekiGuard <==> i == 2),
        Step::ReissekiGuard.template_view() == crate::domain::step::guard_template_view(),
        forall|s: Step| (#[trigger] plan_view(s, p) is Guard) <==> s == Step::ReissekiGuard,
        forall|s: Step|
            (#[trigger] plan_view(s, p) matches StepPlan::Click { on_miss, .. } && on_miss == OnMiss::Skip)
                <==> s == Step::Close,
{
    let all = Step::all_view();
    assert forall|i: int| 0 <= i < 10 implies (#[trigger] all[i] == Step::ReissekiGuard <==> i == 2) by {
        if i == 0 { } else if i == 1 { } else if i == 2 { } else if i == 3 { } else if i == 4 { }
        else if i == 5 { } else if i == 6 { } else if i == 7 { } else if i == 8 { } else { }
    }
}

/// Within a cycle the use button (and every later step) is reached only
/// after the guard step was logged as passed: its template was seen, and it
/// was not skipped.
pub proof fn law_use_only_after_guard(run: CycleRun)
    requires
        run.well_formed(),
        run.logs_view().len() >= 3,
    ensures
        run.logs_view()[2].step == Step::ReissekiGuard,
        run.logs_view()[2].matched_score.is_some(),
        !run.logs_view()[2].skipped,
{
    assert(run.logs_view()[2].step == Step::all_view()[2]);
}

/// A match whose score differs from the previous match's score by more than
/// the tolerance (as `(a - b).abs() <= tol` evaluates in `f32`), or whose
/// center moved by more than the position tolerance on an axis, is not
/// consistent with it: the stability count starts again at 1, whatever it
/// was.
pub proof fn law_jump_restarts_stability(prev: Match, m: Match, count: u32, s: SearchSettings)
    requires
        !ieee::f32_sub_abs_le(m.score, prev.score, s.score_tol)
            || m.center_x > prev.center_x + s.position_tol_px
            || prev.center_x > m.center_x + s.position_tol_px
            || m.center_y > prev.center_y + s.position_tol_px
            || prev.center_y > m.center_y + s.position_tol_px,
    ensures
        next_stable_count(Some(prev), count, m, s) == 1,
{
}

/// A match consistent with the previous one (score within the tolerance as
/// `f32` evaluates it, center within the position tolerance on both axes)
/// adds one to the stability count.
pub proof fn law_steady_match_counts(prev: Match, m: Match, count: u32, s: SearchSettings)
    requires
        ieee::f32_sub_abs_le(m.score, prev.score, s.score_tol),
        m.center_x <= prev.center_x + s.position_tol_px,
        prev.center_x <= m.center_x + s.position_tol_px,
        m.center_y <= prev.center_y + s.position_tol_px,
        prev.center_y <= m.center_y + s.position_tol_px,
    ensures
        next_stable_count(Some(prev), count, m, s) == count + 1,
{
}

} // verus!
