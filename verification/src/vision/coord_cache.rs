//! Coordinate cache for templates whose on-screen position does not move.
//!
//! The center of a stable click on a whitelisted template is kept between
//! cycles; later searches try a small ROI around it first and fall back to
//! the template's normal ROI when that misses. The whitelist is fixed: the
//! premium-currency guard and the templates whose position moves are never
//! cached, and a change of the client size drops every entry.
use vstd::prelude::*;
use crate::text::str_eq;
use crate::vision::matcher::Rect;
use crate::domain::step::Step;

verus! {

/// Templates whose position is cached (fixed at compile time).
pub const CACHEABLE_TEMPLATES: [&'static str; 4] = ["ap_plus_button", "use_button", "toubatsu_button", "toubatsu_start"];

/// Slot of a whitelisted template name, or -1.
pub open spec fn slot_index(name: Seq<char>) -> int {
    if name == "ap_plus_button"@ {
        0
    } else if name == "use_button"@ {
        1
    } else if name == "toubatsu_button"@ {
        2
    } else if name == "toubatsu_start"@ {
        3
    } else {
        -1
    }
}

/// The template may be cached.
pub open spec fn cacheable(name: Seq<char>) -> bool {
    slot_index(name) >= 0
}

proof fn lemma_slot_literals()
    ensures
        slot_index("ap_plus_button"@) == 0,
        slot_index("use_button"@) == 1,
        slot_index("toubatsu_button"@) == 2,
        slot_index("toubatsu_start"@) == 3,
        slot_index("reisseki_zero_guard"@) == -1,
        slot_index("next_button"@) == -1,
        slot_index("close_button"@) == -1,
        slot_index("tap_indicator"@) == -1,
        slot_index("ap_recovered_use_max"@) == -1,
{
    reveal_strlit("ap_plus_button");
    reveal_strlit("use_button");
    reveal_strlit("toubatsu_button");
    reveal_strlit("toubatsu_start");
    reveal_strlit("reisseki_zero_guard");
    reveal_strlit("next_button");
    reveal_strlit("close_button");
    reveal_strlit("tap_indicator");
    reveal_strlit("ap_recovered_use_max");
    assert("ap_plus_button"@.len() == 14);
    assert("use_button"@.len() == 10);
    assert("toubatsu_button"@.len() == 15);
    assert("toubatsu_start"@.len() == 14);
    assert("toubatsu_start"@[0] != "ap_plus_button"@[0]);
    assert("reisseki_zero_guard"@.len() == 19);
    assert("next_button"@.len() == 11);
    assert("close_button"@.len() == 12);
    assert("tap_indicator"@.len() == 13);
    assert("ap_recovered_use_max"@.len() == 20);
}

/// Whether `name` is on the whitelist.
pub fn is_cacheable(name: &str) -> (r: bool)
    ensures
        r == cacheable(name@),
{
    slot_of(name) < 4
}

fn slot_of(name: &str) -> (r: usize)
    ensures
        r < 4 ==> slot_index(name@) == r as int,
        r >= 4 ==> slot_index(name@) == -1,
        r <= 4,
{
    let mut i: usize = 0;
    while i < 4
        invariant
            i <= 4,
            forall|j: int| 0 <= j < i ==> (#[trigger] CACHEABLE_TEMPLATES@[j])@ != name@,
        decreases 4 - i,
    {
        if str_eq(CACHEABLE_TEMPLATES[i], name) {
            proof {
                lemma_slot_literals();
            }
            return i;
        }
        i = i + 1;
    }
    proof {
        assert(CACHEABLE_TEMPLATES@[0]@ != name@);
        assert(CACHEABLE_TEMPLATES@[1]@ != name@);
        assert(CACHEABLE_TEMPLATES@[2]@ != name@);
        assert(CACHEABLE_TEMPLATES@[3]@ != name@);
    }
    4
}

/// A cached match center and its score (IEEE-754 bits).
#[derive(Debug, Clone, Copy, PartialEq, Eq, Structural)]
pub struct CachedCenter {
    pub center_x: u32,
    pub center_y: u32,
    pub last_score: u32,
}

/// Counters of the cache.
#[derive(Debug, Clone, Copy, PartialEq, Eq, Structural)]
pub struct CoordCacheStats {
    /// Clicks issued after a stable match found in the small ROI.
    pub hits: u64,
    /// Small-ROI misses that triggered a fallback to the normal ROI.
    pub small_roi_misses: u64,
    /// Fallbacks that found the template (the entry was evicted).
    pub fallback_succeeded: u64,
    /// Fallbacks that found nothing either.
    pub fallback_failed: u64,
    /// Drops of all entries because the client size changed.
    pub invalidations: u64,
}

impl Default for CoordCacheStats {
    fn default() -> (r: Self)
        ensures
            r == (CoordCacheStats { hits: 0, small_roi_misses: 0, fallback_succeeded: 0, fallback_failed: 0, invalidations: 0 }),
    {
        CoordCacheStats { hits: 0, small_roi_misses: 0, fallback_succeeded: 0, fallback_failed: 0, invalidations: 0 }
    }
}

/// The cache: the client size last observed, one slot per whitelisted
/// template and the counters.
#[derive(Debug)]
pub struct CoordCache {
    baseline: Option<(u32, u32)>,
    slots: [Option<CachedCenter>; 4],
    stats: CoordCacheStats,
}

impl CoordCache {
    /// The client size last observed.
    pub closed spec fn baseline_view(&self) -> Option<(u32, u32)> {
        self.baseline
    }

    /// The cached center of `name`; never present for a name off the whitelist.
    pub closed spec fn entry(&self, name: Seq<char>) -> Option<CachedCenter> {
        if cacheable(name) {
            self.slots@[slot_index(name)]
        } else {
            None
        }
    }

    /// Number of cached entries.
    pub closed spec fn len_view(&self) -> nat {
        (if self.slots@[0].is_some() { 1nat } else { 0nat }) + (if self.slots@[1].is_some() { 1nat } else { 0nat })
            + (if self.slots@[2].is_some() { 1nat } else { 0nat }) + (if self.slots@[3].is_some() { 1nat } else { 0nat })
    }

    pub closed spec fn stats_view(&self) -> CoordCacheStats {
        self.stats
    }

    /// No entry at all.
    pub open spec fn is_empty_view(&self) -> bool {
        forall|n: Seq<char>| #[trigger] self.entry(n).is_none()
    }

    proof fn lemma_len_zero(&self)
        ensures
            self.len_view() == 0 <==> self.is_empty_view(),
    {
        if self.len_view() == 0 {
            assert forall|n: Seq<char>| #[trigger] self.entry(n).is_none() by {
                if cacheable(n) {
                    let i = slot_index(n);
                    assert(0 <= i < 4);
                }
            }
        }
        if self.is_empty_view() {
            lemma_slot_literals();
            assert(self.entry("ap_plus_button"@).is_none());
            assert(self.entry("use_button"@).is_none());
            assert(self.entry("toubatsu_button"@).is_none());
            assert(self.entry("toubatsu_start"@).is_none());
        }
    }

    /// An empty cache with no baseline and zero counters.
    pub fn new() -> (r: Self)
        ensures
            r.baseline_view().is_none(),
            r.is_empty_view(),
            r.len_view() == 0,
            r.stats_view() == (CoordCacheStats { hits: 0, small_roi_misses: 0, fallback_succeeded: 0, fallback_failed: 0, invalidations: 0 }),
    {
        let r = CoordCache { baseline: None, slots: [None, None, None, None], stats: CoordCacheStats::default() };
        proof {
            r.lemma_len_zero();
        }
        r
    }

    /// The observation of `(client_w, client_h)` drops the entries.
    pub open spec fn invalidates(&self, client_w: u32, client_h: u32) -> bool {
        self.baseline_view() matches Some(b) && b != (client_w, client_h)
    }

    /// Called on every capture. The first call sets the baseline; a client
    /// size different from the baseline drops every entry, counts one
    /// invalidation and becomes the new baseline; the same size changes
    /// nothing.
    pub fn observe(&mut self, client_w: u32, client_h: u32)
        requires
            old(self).invalidates(client_w, client_h) ==> old(self).stats_view().invalidations < u64::MAX,
        ensures
            final(self).baseline_view() == Some((client_w, client_h)),
            (old(self).baseline_view() matches Some(b) && (b.0 != client_w || b.1 != client_h)) ==> {
                &&& final(self).len_view() == 0
                &&& forall|n: Seq<char>| #[trigger] final(self).entry(n).is_none()
                &&& final(self).stats_view().invalidations == old(self).stats_view().invalidations + 1
            },
            (old(self).baseline_view() is None || old(self).baseline_view() == Some((client_w, client_h))) ==> {
                &&& final(self).len_view() == old(self).len_view()
                &&& forall|n: Seq<char>| #[trigger] final(self).entry(n) == old(self).entry(n)
                &&& final(self).stats_view() == old(self).stats_view()
            },
            old(self).invalidates(client_w, client_h) ==> {
                &&& final(self).is_empty_view()
                &&& final(self).len_view() == 0
                &&& final(self).stats_view() == (CoordCacheStats {
                    invalidations: (old(self).stats_view().invalidations + 1) as u64,
                    ..old(self).stats_view()
                })
            },
            !old(self).invalidates(client_w, client_h) ==> {
                &&& forall|n: Seq<char>| #[trigger] final(self).entry(n) == old(self).entry(n)
                &&& final(self).len_view() == old(self).len_view()
                &&& final(self).stats_view() == old(self).stats_view()
            },
    {
        match self.baseline {
            None => {
                self.baseline = Some((client_w, client_h));
            },
            Some((w, h)) => {
                if w == client_w && h == client_h {
                } else {
                    self.slots = [None, None, None, None];
                    self.baseline = Some((client_w, client_h));
                    self.stats.invalidations = self.stats.invalidations + 1;
                    proof {
                        self.lemma_len_zero();
                    }
                }
            },
        }
    }

    /// The cached center of `name`; `None` for a name off the whitelist.
    pub fn lookup(&self, name: &str) -> (r: Option<CachedCenter>)
        ensures
            r == self.entry(name@),
            !cacheable(name@) ==> r.is_none(),
    {
        let i = slot_of(name);
        if i < 4 {
            self.slots[i]
        } else {
            None
        }
    }

    /// Called just before a click: stores the center of a whitelisted
    /// template; a name off the whitelist is ignored.
    pub fn record(&mut self, name: &str, center: CachedCenter)
        ensures
            final(self).baseline_view() == old(self).baseline_view(),
            final(self).stats_view() == old(self).stats_view(),
            cacheable(name@) ==> final(self).entry(name@) == Some(center),
            forall|n: Seq<char>| n != name@ ==> #[trigger] final(self).entry(n) == old(self).entry(n),
            !cacheable(name@) ==> forall|n: Seq<char>| #[trigger] final(self).entry(n) == old(self).entry(n),
            final(self).len_view() == old(self).len_view() + (if cacheable(name@) && old(self).entry(name@).is_none() {
                1int
            } else {
                0int
            }),
    {
        let i = slot_of(name);
        if i < 4 {
            self.slots.set(i, Some(center));
            proof {
                assert forall|n: Seq<char>| n != name@ implies #[trigger] self.entry(n) == old(self).entry(n) by {
                    if cacheable(n) {
                        assert(slot_index(n) != i as int);
                    }
                }
            }
        }
    }

    /// Drops the entry of `name` (after the normal ROI found the template
    /// elsewhere).
    pub fn evict(&mut self, name: &str)
        ensures
            final(self).baseline_view() == old(self).baseline_view(),
            final(self).stats_view() == old(self).stats_view(),
            final(self).entry(name@).is_none(),
            forall|n: Seq<char>| n != name@ ==> #[trigger] final(self).entry(n) == old(self).entry(n),
            final(self).len_view() == old(self).len_view() - (if old(self).entry(name@).is_some() { 1int } else { 0int }),
    {
        let i = slot_of(name);
        if i < 4 {
            self.slots.set(i, None);
            proof {
                assert forall|n: Seq<char>| n != name@ implies #[trigger] self.entry(n) == old(self).entry(n) by {
                    if cacheable(n) {
                        assert(slot_index(n) != i as int);
                    }
                }
            }
        }
    }

    pub fn stats(&self) -> (r: CoordCacheStats)
        ensures
            r == self.stats_view(),
    {
        self.stats
    }

    /// Number of cached entries.
    pub fn entries_len(&self) -> (r: usize)
        ensures
            r == self.len_view(),
    {
        let mut n: usize = 0;
        if self.slots[0].is_some() {
            n = n + 1;
        }
        if self.slots[1].is_some() {
            n = n + 1;
        }
        if self.slots[2].is_some() {
            n = n + 1;
        }
        if self.slots[3].is_some() {
            n = n + 1;
        }
        n
    }

    pub fn note_hit(&mut self)
        requires
            old(self).stats_view().hits < u64::MAX,
        ensures
            final(self).stats_view() == (CoordCacheStats { hits: (old(self).stats_view().hits + 1) as u64, ..old(self).stats_view() }),
            final(self).baseline_view() == old(self).baseline_view(),
            forall|n: Seq<char>| #[trigger] final(self).entry(n) == old(self).entry(n),
            final(self).len_view() == old(self).len_view(),
    {
        self.stats.hits = self.stats.hits + 1;
    }

    pub fn note_small_roi_miss(&mut self)
        requires
            old(self).stats_view().small_roi_misses < u64::MAX,
        ensures
            final(self).stats_view() == (CoordCacheStats {
                small_roi_misses: (old(self).stats_view().small_roi_misses + 1) as u64,
                ..old(self).stats_view()
            }),
            final(self).baseline_view() == old(self).baseline_view(),
            forall|n: Seq<char>| #[trigger] final(self).entry(n) == old(self).entry(n),
            final(self).len_view() == old(self).len_view(),
    {
        self.stats.small_roi_misses = self.stats.small_roi_misses + 1;
    }

    pub fn note_fallback_succeeded(&mut self)
        requires
            old(self).stats_view().fallback_succeeded < u64::MAX,
        ensures
            final(self).stats_view() == (CoordCacheStats {
                fallback_succeeded: (old(self).stats_view().fallback_succeeded + 1) as u64,
                ..old(self).stats_view()
            }),
            final(self).baseline_view() == old(self).baseline_view(),
            forall|n: Seq<char>| #[trigger] final(self).entry(n) == old(self).entry(n),
            final(self).len_view() == old(self).len_view(),
    {
        self.stats.fallback_succeeded = self.stats.fallback_succeeded + 1;
    }

    pub fn note_fallback_failed(&mut self)
        requires
            old(self).stats_view().fallback_failed < u64::MAX,
        ensures
            final(self).stats_view() == (CoordCacheStats {
                fallback_failed: (old(self).stats_view().fallback_failed + 1) as u64,
                ..old(self).stats_view()
            }),
            final(self).baseline_view() == old(self).baseline_view(),
            forall|n: Seq<char>| #[trigger] final(self).entry(n) == old(self).entry(n),
            final(self).len_view() == old(self).len_view(),
    {
        self.stats.fallback_failed = self.stats.fallback_failed + 1;
    }
}

/// `v as i32` for a `u32`: the same bits read as two's complement.
pub open spec fn wrap_i32(v: u32) -> int {
    if v <= i32::MAX {
        v as int
    } else {
        v - 0x1_0000_0000
    }
}

/// The left (or top) edge of the small ROI before clamping at 0.
pub open spec fn small_roi_origin(center: u32, template_size: u32, pad_px: u32) -> int {
    wrap_i32(center) - (template_size / 2) - wrap_i32(pad_px)
}

/// The small ROI arithmetic does not overflow `i32` (where the computation
/// would panic).
pub open spec fn small_roi_defined(center: CachedCenter, template_w: u32, template_h: u32, pad_px: u32) -> bool {
    &&& i32::MIN <= wrap_i32(center.center_x) - (template_w / 2) <= i32::MAX
    &&& i32::MIN <= small_roi_origin(center.center_x, template_w, pad_px) <= i32::MAX
    &&& i32::MIN <= wrap_i32(center.center_y) - (template_h / 2) <= i32::MAX
    &&& i32::MIN <= small_roi_origin(center.center_y, template_h, pad_px) <= i32::MAX
}

pub open spec fn sat_add(a: u32, b: int) -> u32 {
    if a + b <= u32::MAX {
        (a + b) as u32
    } else {
        u32::MAX
    }
}

pub open spec fn sat_sub(a: u32, b: u32) -> u32 {
    if a >= b {
        (a - b) as u32
    } else {
        0
    }
}

/// The small ROI: the template box around the cached center, widened by
/// `pad_px` on each side, its origin clamped at 0 and then moved and cut to
/// fit the client area; an empty client area gives the empty rectangle.
pub open spec fn small_roi_view(
    center: CachedCenter,
    template_w: u32,
    template_h: u32,
    pad_px: u32,
    client_w: u32,
    client_h: u32,
) -> Rect {
    if client_w == 0 || client_h == 0 {
        Rect { x: 0, y: 0, w: 0, h: 0 }
    } else {
        let left = small_roi_origin(center.center_x, template_w, pad_px);
        let top = small_roi_origin(center.center_y, template_h, pad_px);
        let x: u32 = if left > 0 { left as u32 } else { 0 };
        let y: u32 = if top > 0 { top as u32 } else { 0 };
        let pad2: u32 = if 2 * pad_px <= u32::MAX { (2 * pad_px) as u32 } else { u32::MAX };
        let w = sat_add(template_w, pad2 as int);
        let h = sat_add(template_h, pad2 as int);
        Rect {
            x: if x <= client_w - 1 { x } else { (client_w - 1) as u32 },
            y: if y <= client_h - 1 { y } else { (client_h - 1) as u32 },
            w: if w <= sat_sub(client_w, x) { w } else { sat_sub(client_w, x) },
            h: if h <= sat_sub(client_h, y) { h } else { sat_sub(client_h, y) },
        }
    }
}

fn as_i32_wrapped(v: u32) -> (r: i64)
    ensures
        r == wrap_i32(v),
{
    if v <= 0x7FFF_FFFF {
        v as i64
    } else {
        v as i64 - 0x1_0000_0000
    }
}

/// Small search rectangle around a cached center (see `small_roi_view`).
/// It always lies inside the client area.
pub fn small_roi(
    center: CachedCenter,
    template_w: u32,
    template_h: u32,
    pad_px: u32,
    client_w: u32,
    client_h: u32,
) -> (r: Rect)
    requires
        small_roi_defined(center, template_w, template_h, pad_px),
    ensures
        r == small_roi_view(center, template_w, template_h, pad_px, client_w, client_h),
        client_w == 0 || client_h == 0 ==> r.w == 0 && r.h == 0,
        client_w > 0 ==> r.x < client_w && r.x + r.w <= client_w,
        client_h > 0 ==> r.y < client_h && r.y + r.h <= client_h,
{
    if client_w == 0 || client_h == 0 {
        return Rect { x: 0, y: 0, w: 0, h: 0 };
    }
    let half_w = template_w / 2;
    let half_h = template_h / 2;
    let left: i64 = as_i32_wrapped(center.center_x) - (half_w as i64) - as_i32_wrapped(pad_px);
    let top: i64 = as_i32_wrapped(center.center_y) - (half_h as i64) - as_i32_wrapped(pad_px);
    let x: u32 = if left > 0 { left as u32 } else { 0 };
    let y: u32 = if top > 0 { top as u32 } else { 0 };
    let pad2: u32 = if pad_px <= 0x7FFF_FFFF { pad_px * 2 } else { u32::MAX };
    let w = template_w.saturating_add(pad2);
    let h = template_h.saturating_add(pad2);
    Rect {
        x: if x <= client_w.saturating_sub(1) { x } else { client_w.saturating_sub(1) },
        y: if y <= client_h.saturating_sub(1) { y } else { client_h.saturating_sub(1) },
        w: if w <= client_w.saturating_sub(x) { w } else { client_w.saturating_sub(x) },
        h: if h <= client_h.saturating_sub(y) { h } else { client_h.saturating_sub(y) },
    }
}

// ---------------------------------------------------------------------------
// Laws
// ---------------------------------------------------------------------------

/// The premium-currency guard template and the templates whose position
/// moves are never cacheable.
pub proof fn law_whitelist_excludes_guard_and_dynamic()
    ensures
        !cacheable("reisseki_zero_guard"@),
        !cacheable("next_button"@),
        !cacheable("close_button"@),
        !cacheable("tap_indicator"@),
        !cacheable("ap_recovered_use_max"@),
        cacheable("ap_plus_button"@),
        cacheable("use_button"@),
        cacheable("toubatsu_button"@),
        cacheable("toubatsu_start"@),
{
    lemma_slot_literals();
}

/// A name off the whitelist is never found in the cache, whatever was
/// recorded: lookups only return centers of cacheable templates.
pub proof fn law_lookup_only_whitelisted(cache: CoordCache, name: Seq<char>)
    requires
        !cacheable(name),
    ensures
        cache.entry(name).is_none(),
{
}

/// The public whitelist constant lists exactly the cacheable templates.
pub proof fn law_whitelist_constant(name: Seq<char>)
    ensures
        CACHEABLE_TEMPLATES@.len() == 4,
        cacheable(name) <==> exists|i: int| 0 <= i < 4 && (#[trigger] CACHEABLE_TEMPLATES@[i])@ == name,
{
}

/// Of the steps' templates exactly the four buttons that never move are
/// cacheable: the AP plus, use, subjugation and subjugation start buttons.
pub proof fn law_cacheable_steps(s: Step)
    ensures
        cacheable(s.template_view()) <==> (s == Step::ApPlus || s == Step::UseButton || s == Step::Toubatsu
            || s == Step::ToubatsuStart),
{
    lemma_slot_literals();
}

/// A change of the client width or of its height (or of both) from the
/// observed baseline drops the cache; the first observation and the same
/// size do not.
pub proof fn law_size_change_invalidates(cache: CoordCache, w: u32, h: u32)
    ensures
        (cache.baseline_view() matches Some(b) && (b.0 != w || b.1 != h)) ==> cache.invalidates(w, h),
        (cache.baseline_view() is None || cache.baseline_view() == Some((w, h))) ==> !cache.invalidates(w, h),
{
}

} // verus!
