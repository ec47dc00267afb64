//! Template search by normalized cross-correlation inside a region.
use vstd::prelude::*;
use vstd::arithmetic::div_mod::{lemma_fundamental_div_mod_converse, lemma_div_pos_is_pos};
use vstd::arithmetic::mul::lemma_mul_inequality;
use crate::ieee;
use crate::vision::template::Template;

verus! {

/// A captured client area in 8-bit grayscale, row-major.
#[derive(Debug, Clone)]
pub struct GrayFrame {
    pub width: u32,
    pub height: u32,
    pub pixels: Vec<u8>,
}

impl GrayFrame {
    /// The buffer holds exactly `width * height` pixels.
    pub open spec fn well_formed(&self) -> bool {
        self.pixels@.len() == self.width as int * self.height as int
    }
}

/// Name for the grayscale pixels that `image::DynamicImage::to_luma8` gives
/// for an 8-bit RGBA image of the given size (row-major, 4 bytes a pixel,
/// in the default sRGB color space).
pub uninterp spec fn luma8_of_rgba(rgba: Seq<u8>, width: u32, height: u32) -> Seq<u8>;

/// Calls `image::RgbaImage::from_raw` and `DynamicImage::to_luma8`.
/// Trusted: the result is the named result `luma8_of_rgba`, one byte a
/// pixel (`to_luma8` casts every pixel of the `width * height` buffer into
/// a buffer of the same pixel count). The buffer length is checked so that
/// `from_raw` accepts it.
#[verifier::external_body]
fn rgba_to_luma8(width: u32, height: u32, rgba: Vec<u8>) -> (r: Vec<u8>)
    requires
        rgba@.len() == 4 * width as int * height as int,
    ensures
        r@ == luma8_of_rgba(rgba@, width, height),
        r@.len() == width as int * height as int,
{
    let img = image::RgbaImage::from_raw(width, height, rgba).unwrap();
    image::DynamicImage::ImageRgba8(img).to_luma8().into_raw()
}

/// The grayscale frame of a captured RGBA client area.
pub fn gray_frame_from_rgba(width: u32, height: u32, rgba: Vec<u8>) -> (r: GrayFrame)
    requires
        rgba@.len() == 4 * width as int * height as int,
    ensures
        r.width == width,
        r.height == height,
        r.pixels@ == luma8_of_rgba(rgba@, width, height),
        r.well_formed(),
{
    let pixels = rgba_to_luma8(width, height, rgba);
    GrayFrame { width, height, pixels }
}

/// A match: its score (IEEE-754 bits) and its center in client coordinates.
#[derive(Debug, Clone, Copy, PartialEq, Eq, Structural)]
pub struct Match {
    pub score: u32,
    pub center_x: u32,
    pub center_y: u32,
}

/// A pixel rectangle of the client area.
#[derive(Debug, Clone, Copy, PartialEq, Eq, Structural)]
pub struct Rect {
    pub x: u32,
    pub y: u32,
    pub w: u32,
    pub h: u32,
}

/// The template matcher (stateless).
#[derive(Debug, Clone, Copy)]
pub struct Matcher;

/// The `w`x`h` block of a row-major image of width `fw` whose top-left
/// corner is `(x, y)`, row-major.
pub open spec fn crop_view(p: Seq<u8>, fw: int, x: int, y: int, w: int, h: int) -> Seq<u8> {
    Seq::new((w * h) as nat, |k: int| p[(y + k / w) * fw + x + k % w])
}

/// Name for the score map that `imageproc::template_matching::
/// match_template_parallel` gives with `CrossCorrelationNormalized` for an
/// image and a template (both row-major grayscale): the scores, row-major,
/// as IEEE-754 bit patterns.
pub uninterp spec fn ncc_scores(
    image: Seq<u8>,
    image_w: u32,
    image_h: u32,
    template: Seq<u8>,
    template_w: u32,
    template_h: u32,
) -> Seq<u32>;

/// Calls `imageproc::template_matching::match_template_parallel` with the
/// normalized cross-correlation method. Trusted: the scores are the named
/// result `ncc_scores` of the two buffers and their sizes, and the map has
/// `(image_w - template_w + 1) * (image_h - template_h + 1)` entries, as the
/// function's documentation states. The sizes are checked so that the image
/// buffers can be built and the function does not panic.
#[verifier::external_body]
fn ncc_score_map(image: Vec<u8>, image_w: u32, image_h: u32, template: &Vec<u8>, template_w: u32, template_h: u32) -> (r: Vec<u32>)
    requires
        image@.len() == image_w as int * image_h as int,
        template@.len() == template_w as int * template_h as int,
        1 <= template_w <= image_w,
        1 <= template_h <= image_h,
    ensures
        r@ == ncc_scores(image@, image_w, image_h, template@, template_w, template_h),
        r@.len() == (image_w - template_w + 1) * (image_h - template_h + 1),
{
    let img = image::GrayImage::from_raw(image_w, image_h, image).unwrap();
    let tpl = image::GrayImage::from_raw(template_w, template_h, template.clone()).unwrap();
    let method = imageproc::template_matching::MatchTemplateMethod::CrossCorrelationNormalized;
    let res = imageproc::template_matching::match_template_parallel(&img, &tpl, method);
    res.into_raw().into_iter().map(|v| v.to_bits()).collect()
}

/// Largest score among the first `n` entries and the index of its first
/// occurrence: the first entry, replaced only by a strictly greater one
/// (a NaN never replaces and is never replaced by comparison), as
/// `imageproc::template_matching::find_extremes` scans an image.
pub open spec fn scan_max(s: Seq<u32>, n: int) -> (u32, int)
    decreases n,
{
    if n <= 1 {
        (s[0], 0)
    } else {
        let (m, k) = scan_max(s, n - 1);
        if ieee::gt(s[n - 1], m) {
            (s[n - 1], n - 1)
        } else {
            (m, k)
        }
    }
}

proof fn lemma_scan_max_index(s: Seq<u32>, n: int)
    requires
        1 <= n,
    ensures
        0 <= scan_max(s, n).1 < n,
        scan_max(s, n).0 == s[scan_max(s, n).1],
    decreases n,
{
    if n > 1 {
        lemma_scan_max_index(s, n - 1);
    }
}

/// Largest score of a non-empty map and its first index (row-major scan).
pub fn find_extremes_max(s: &Vec<u32>) -> (r: (u32, usize))
    requires
        s@.len() >= 1,
    ensures
        (r.0, r.1 as int) == scan_max(s@, s@.len() as int),
{
    let mut best = s[0];
    let mut at: usize = 0;
    let mut i: usize = 1;
    while i < s.len()
        invariant
            1 <= i <= s@.len(),
            (best, at as int) == scan_max(s@, i as int),
        decreases s.len() - i,
    {
        if ieee::bits_gt(s[i], best) {
            best = s[i];
            at = i;
        }
        i = i + 1;
    }
    (best, at)
}

proof fn lemma_crop_index(fw: int, fh: int, x: int, y: int, w: int, h: int, row: int, col: int)
    requires
        0 <= x,
        0 <= y,
        x + w <= fw,
        y + h <= fh,
        0 <= row < h,
        0 <= col < w,
    ensures
        0 <= (y + row) * fw + x + col < fw * fh,
{
    lemma_mul_inequality(y + row, fh - 1, fw);
    assert((fh - 1) * fw + fw == fw * fh) by (nonlinear_arith);
    assert(0 <= (y + row) * fw) by (nonlinear_arith)
        requires
            0 <= y + row,
            0 <= fw,
    ;
}

/// Copies the `w`x`h` block at `(x, y)` out of the frame.
pub fn crop(frame: &GrayFrame, x: u32, y: u32, w: u32, h: u32) -> (r: Vec<u8>)
    requires
        frame.well_formed(),
        x + w <= frame.width,
        y + h <= frame.height,
    ensures
        r@ == crop_view(frame.pixels@, frame.width as int, x as int, y as int, w as int, h as int),
{
    let len = frame.pixels.len();
    let ghost cv = crop_view(frame.pixels@, frame.width as int, x as int, y as int, w as int, h as int);
    let mut out: Vec<u8> = Vec::new();
    let mut row: u32 = 0;
    while row < h
        invariant
            frame.well_formed(),
            x + w <= frame.width,
            y + h <= frame.height,
            row <= h,
            len == frame.pixels@.len(),
            cv == crop_view(frame.pixels@, frame.width as int, x as int, y as int, w as int, h as int),
            out@.len() == row as int * w as int,
            forall|k: int| 0 <= k < out@.len() ==> out@[k] == #[trigger] cv[k],
        decreases h - row,
    {
        let mut col: u32 = 0;
        while col < w
            invariant
                frame.well_formed(),
                x + w <= frame.width,
                y + h <= frame.height,
                row < h,
                col <= w,
                len == frame.pixels@.len(),
                cv == crop_view(frame.pixels@, frame.width as int, x as int, y as int, w as int, h as int),
                out@.len() == row as int * w as int + col as int,
                forall|k: int| 0 <= k < out@.len() ==> out@[k] == #[trigger] cv[k],
            decreases w - col,
        {
            proof {
                lemma_crop_index(
                    frame.width as int,
                    frame.height as int,
                    x as int,
                    y as int,
                    w as int,
                    h as int,
                    row as int,
                    col as int,
                );
                assert(((y + row) as int) * (frame.width as int) <= ((y + row) as int) * (frame.width as int) + x + col);
            }
            let idx: usize = ((y + row) as usize) * (frame.width as usize) + (x as usize) + (col as usize);
            let v = frame.pixels[idx];
            proof {
                let k = row as int * w as int + col as int;
                lemma_fundamental_div_mod_converse(k, w as int, row as int, col as int);
                assert(k < w as int * h as int) by (nonlinear_arith)
                    requires
                        k == row as int * w as int + col as int,
                        col < w,
                        row + 1 <= h,
                ;
                assert(cv[k] == v);
            }
            out.push(v);
            col = col + 1;
        }
        proof {
            assert((row + 1) as int * w as int == row as int * w as int + w as int) by (nonlinear_arith);
        }
        row = row + 1;
    }
    proof {
        assert(h as int * w as int == w as int * h as int) by (nonlinear_arith);
        assert(out@.len() == cv.len());
        assert(out@ =~= cv);
    }
    out
}

/// The ROI moved and cut to fit the screen, as the matcher uses it.
pub open spec fn clamp_roi(roi: Rect, screen_w: u32, screen_h: u32) -> Rect {
    let sw1: u32 = if screen_w >= 1 { (screen_w - 1) as u32 } else { 0 };
    let sh1: u32 = if screen_h >= 1 { (screen_h - 1) as u32 } else { 0 };
    let x: u32 = if roi.x <= sw1 { roi.x } else { sw1 };
    let y: u32 = if roi.y <= sh1 { roi.y } else { sh1 };
    let w: u32 = if roi.w <= screen_w - x { roi.w } else { (screen_w - x) as u32 };
    let h: u32 = if roi.h <= screen_h - y { roi.h } else { (screen_h - y) as u32 };
    Rect { x, y, w, h }
}

/// What `find_in_rect` returns: nothing (score 0.0) when the clamped ROI or
/// the template is empty or the ROI is smaller than the template; otherwise
/// the best normalized cross-correlation score over the ROI, with a match
/// centered on its position when the score reaches the template threshold.
pub open spec fn find_in_rect_view(frame: GrayFrame, tpl: Template, roi: Rect) -> (Option<Match>, u32) {
    let c = clamp_roi(roi, frame.width, frame.height);
    if c.w == 0 || c.h == 0 || tpl.width == 0 || tpl.height == 0 || c.w < tpl.width || c.h < tpl.height {
        (None, ieee::ZERO_BITS)
    } else {
        let scores = ncc_scores(
            crop_view(frame.pixels@, frame.width as int, c.x as int, c.y as int, c.w as int, c.h as int),
            c.w,
            c.h,
            tpl.pixels@,
            tpl.width,
            tpl.height,
        );
        match_of_scores(scores, c, tpl.width, tpl.height, tpl.threshold)
    }
}

/// The match that a score map over the search rectangle `c` gives for a
/// `tw`x`th` template with acceptance threshold `threshold`: the best score
/// of the map and, when it reaches the threshold, a match centered on the
/// template placed at the (first) best position.
pub open spec fn match_of_scores(scores: Seq<u32>, c: Rect, tw: u32, th: u32, threshold: u32) -> (Option<Match>, u32) {
    let ow = c.w - tw + 1;
    let (best, k) = scan_max(scores, scores.len() as int);
    if ieee::ge(best, threshold) {
        (
            Some(
                Match {
                    score: best,
                    center_x: (c.x + k % ow + tw / 2) as u32,
                    center_y: (c.y + k / ow + th / 2) as u32,
                },
            ),
            best,
        )
    } else {
        (None, best)
    }
}

/// Reads the match out of the score map that normalized cross-correlation
/// gave for a `tw`x`th` template over the rectangle `c` (one score per
/// template position, row-major). A match scores at least the threshold,
/// equals the best score, and is centered inside `c`.
pub fn match_from_scores(scores: &Vec<u32>, c: Rect, tw: u32, th: u32, threshold: u32) -> (r: (Option<Match>, u32))
    requires
        1 <= tw <= c.w,
        1 <= th <= c.h,
        c.x + c.w <= u32::MAX,
        c.y + c.h <= u32::MAX,
        scores@.len() == (c.w - tw + 1) * (c.h - th + 1),
    ensures
        r == match_of_scores(scores@, c, tw, th, threshold),
        r.0 matches Some(m) ==> {
            &&& ieee::ge(m.score, threshold)
            &&& m.score == r.1
            &&& c.x <= m.center_x < c.x + c.w
            &&& c.y <= m.center_y < c.y + c.h
            &&& c.x + tw / 2 <= m.center_x <= c.x + c.w - tw + tw / 2
            &&& c.y + th / 2 <= m.center_y <= c.y + c.h - th + th / 2
        },
{
    let ow = c.w - tw + 1;
    let oh = c.h - th + 1;
    proof {
        assert(scores@.len() >= 1) by (nonlinear_arith)
            requires
                scores@.len() == ow as int * oh as int,
                ow >= 1,
                oh >= 1,
        ;
    }
    let (best, k) = find_extremes_max(scores);
    proof {
        lemma_scan_max_index(scores@, scores@.len() as int);
        lemma_div_pos_is_pos(k as int, ow as int);
        assert((k as int) % (ow as int) < ow as int && (k as int) % (ow as int) >= 0) by (nonlinear_arith)
            requires
                ow >= 1,
                k >= 0,
        ;
        assert((k as int) / (ow as int) < oh as int) by (nonlinear_arith)
            requires
                ow >= 1,
                0 <= k < ow as int * oh as int,
        ;
    }
    if ieee::bits_ge(best, threshold) {
        let mx = (k % (ow as usize)) as u32;
        let my = (k / (ow as usize)) as u32;
        let m = Match { score: best, center_x: c.x + mx + tw / 2, center_y: c.y + my + th / 2 };
        (Some(m), best)
    } else {
        (None, best)
    }
}

impl Matcher {
    pub fn new() -> (r: Self)
        ensures
            r == Matcher,
    {
        Matcher
    }

    /// Searches `template` inside `roi` of `screen`. The second value is the
    /// best score seen, also when it stays below the threshold. A match
    /// always has a score at or above the threshold and lies inside the
    /// clamped ROI.
    pub fn find_in_rect(&self, screen: &GrayFrame, template: &Template, roi: Rect) -> (r: (Option<Match>, u32))
        requires
            screen.well_formed(),
            template.well_formed(),
        ensures
            r == find_in_rect_view(*screen, *template, roi),
            r.0 matches Some(m) ==> {
                let c = clamp_roi(roi, screen.width, screen.height);
                &&& ieee::ge(m.score, template.threshold)
                &&& m.score == r.1
                &&& c.x <= m.center_x < c.x + c.w
                &&& c.y <= m.center_y < c.y + c.h
                &&& c.x + template.width / 2 <= m.center_x <= c.x + c.w - template.width + template.width / 2
                &&& c.y + template.height / 2 <= m.center_y <= c.y + c.h - template.height + template.height / 2
                &&& roi.x < screen.width ==> roi.x + template.width / 2 <= m.center_x
                    && m.center_x - template.width / 2 + template.width <= roi.x + roi.w
                &&& roi.y < screen.height ==> roi.y + template.height / 2 <= m.center_y
                    && m.center_y - template.height / 2 + template.height <= roi.y + roi.h
                &&& m.center_x - template.width / 2 + template.width <= screen.width
                &&& m.center_y - template.height / 2 + template.height <= screen.height
                &&& c.x + c.w <= screen.width
                &&& c.y + c.h <= screen.height
            },
    {
        let screen_w = screen.width;
        let screen_h = screen.height;
        let roi_x = if roi.x <= screen_w.saturating_sub(1) { roi.x } else { screen_w.saturating_sub(1) };
        let roi_y = if roi.y <= screen_h.saturating_sub(1) { roi.y } else { screen_h.saturating_sub(1) };
        let roi_w = if roi.w <= screen_w.saturating_sub(roi_x) { roi.w } else { screen_w.saturating_sub(roi_x) };
        let roi_h = if roi.h <= screen_h.saturating_sub(roi_y) { roi.h } else { screen_h.saturating_sub(roi_y) };
        let ghost c = clamp_roi(roi, screen_w, screen_h);
        assert(c == Rect { x: roi_x, y: roi_y, w: roi_w, h: roi_h });
        if roi_w == 0 || roi_h == 0 || template.width == 0 || template.height == 0 || roi_w < template.width
            || roi_h < template.height {
            return (None, ieee::ZERO_BITS);
        }
        let sub = crop(screen, roi_x, roi_y, roi_w, roi_h);
        let scores = ncc_score_map(sub, roi_w, roi_h, &template.pixels, template.width, template.height);
        let c = Rect { x: roi_x, y: roi_y, w: roi_w, h: roi_h };
        match_from_scores(&scores, c, template.width, template.height, template.threshold)
    }
}

impl Default for Matcher {
    fn default() -> (r: Self)
        ensures
            r == Matcher,
    {
        Matcher::new()
    }
}

/// The rectangle searched is the requested ROI cut to the screen: never
/// wider or taller than requested, never past the screen's edge, and placed
/// at the requested origin when that origin lies on the screen.
pub proof fn law_search_stays_in_roi(roi: Rect, screen_w: u32, screen_h: u32)
    ensures
        clamp_roi(roi, screen_w, screen_h).w <= roi.w,
        clamp_roi(roi, screen_w, screen_h).h <= roi.h,
        clamp_roi(roi, screen_w, screen_h).x + clamp_roi(roi, screen_w, screen_h).w <= screen_w,
        clamp_roi(roi, screen_w, screen_h).y + clamp_roi(roi, screen_w, screen_h).h <= screen_h,
        roi.x < screen_w ==> clamp_roi(roi, screen_w, screen_h).x == roi.x,
        roi.y < screen_h ==> clamp_roi(roi, screen_w, screen_h).y == roi.y,
        roi.x + roi.w <= screen_w ==> clamp_roi(roi, screen_w, screen_h).w == roi.w,
        roi.y + roi.h <= screen_h ==> clamp_roi(roi, screen_w, screen_h).h == roi.h,
{
}

} // verus!
