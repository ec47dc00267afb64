//! Pixel handling of screen capture.
use vstd::prelude::*;
use vstd::arithmetic::div_mod::lemma_fundamental_div_mod_converse;

verus! {

/// Swaps the first and third byte of every 4-byte pixel: BGRA as GDI
/// returns it becomes RGBA (a trailing partial pixel is left alone).
pub fn bgra_to_rgba(buf: &mut Vec<u8>)
    ensures
        final(buf)@.len() == old(buf)@.len(),
        forall|i: int| 0 <= i < old(buf)@.len() ==> {
            let p = i - i % 4;
            #[trigger] final(buf)@[i] == if p + 4 > old(buf)@.len() {
                old(buf)@[i]
            } else if i % 4 == 0 {
                old(buf)@[p + 2]
            } else if i % 4 == 2 {
                old(buf)@[p]
            } else {
                old(buf)@[i]
            }
        },
{
    let n = buf.len();
    let ghost orig = buf@;
    let mut k: usize = 0;
    while n >= 4 && k <= n - 4
        invariant
            n == orig.len(),
            buf@.len() == n,
            k % 4 == 0,
            k <= n,
            forall|i: int| 0 <= i < n ==> {
                let p = i - i % 4;
                #[trigger] buf@[i] == if i >= k || p + 4 > n {
                    orig[i]
                } else if i % 4 == 0 {
                    orig[p + 2]
                } else if i % 4 == 2 {
                    orig[p]
                } else {
                    orig[i]
                }
            },
        decreases n - k,
    {
        let b = buf[k];
        let r = buf[k + 2];
        buf.set(k, r);
        buf.set(k + 2, b);
        k = k + 4;
    }
}

/// A capture of a zero-sized area is refused before any GDI call.
pub fn capture_area_is_empty(width: u32, height: u32) -> (r: bool)
    ensures
        r == (width == 0 || height == 0),
{
    width == 0 || height == 0
}

/// The rectangle that `image::imageops::crop_imm` keeps of a
/// `width`x`height` image: the origin moved inside the image, then the size
/// cut at the image edge.
pub open spec fn crop_rect(width: u32, height: u32, x: u32, y: u32, w: u32, h: u32) -> (u32, u32, u32, u32) {
    let x1: u32 = if x <= width { x } else { width };
    let y1: u32 = if y <= height { y } else { height };
    let w1: u32 = if w <= width - x1 { w } else { (width - x1) as u32 };
    let h1: u32 = if h <= height - y1 { h } else { (height - y1) as u32 };
    (x1, y1, w1, h1)
}

/// The row-major block of 4-byte pixels of size `w`x`h` whose top-left
/// pixel is `(x, y)` in an image `width` pixels wide.
pub open spec fn rgba_block(p: Seq<u8>, width: int, x: int, y: int, w: int, h: int) -> Seq<u8> {
    Seq::new((4 * w * h) as nat, |k: int| p[4 * ((y + k / (4 * w)) * width + x) + k % (4 * w)])
}

/// Crops an RGBA image (row-major, 4 bytes a pixel) as `crop_imm` does:
/// the pixels of `crop_rect` and its width and height. A whole-window
/// capture is cut down to the client area this way.
pub fn crop_rgba(pixels: &Vec<u8>, width: u32, height: u32, x: u32, y: u32, w: u32, h: u32) -> (r: (Vec<u8>, u32, u32))
    requires
        pixels@.len() == 4 * width as int * height as int,
    ensures
        ({
            let (x1, y1, w1, h1) = crop_rect(width, height, x, y, w, h);
            &&& r.1 == w1
            &&& r.2 == h1
            &&& r.0@ == rgba_block(pixels@, width as int, x1 as int, y1 as int, w1 as int, h1 as int)
        }),
{
    let x1 = if x <= width { x } else { width };
    let y1 = if y <= height { y } else { height };
    let w1 = if w <= width - x1 { w } else { width - x1 };
    let h1 = if h <= height - y1 { h } else { height - y1 };
    let ghost cv = rgba_block(pixels@, width as int, x1 as int, y1 as int, w1 as int, h1 as int);
    let ghost rb = 4 * w1 as int;
    let mut out: Vec<u8> = Vec::new();
    if w1 == 0 || h1 == 0 {
        proof {
            assert(4 * (w1 as int) * (h1 as int) == 0) by (nonlinear_arith)
                requires
                    w1 == 0 || h1 == 0,
            ;
            assert(out@ =~= cv);
        }
        return (out, w1, h1);
    }
    let len = pixels.len();
    proof {
        assert(4 * (w1 as int) <= 4 * width as int * height as int) by (nonlinear_arith)
            requires
                w1 <= width,
                height >= 1,
        ;
    }
    let row_bytes: usize = 4 * (w1 as usize);
    let mut row: u32 = 0;
    while row < h1
        invariant
            pixels@.len() == 4 * width as int * height as int,
            len == pixels@.len(),
            x1 + w1 <= width,
            y1 + h1 <= height,
            w1 >= 1,
            row <= h1,
            row_bytes as int == rb,
            rb == 4 * w1 as int,
            cv == rgba_block(pixels@, width as int, x1 as int, y1 as int, w1 as int, h1 as int),
            out@.len() == row as int * rb,
            forall|k: int| 0 <= k < out@.len() ==> out@[k] == #[trigger] cv[k],
        decreases h1 - row,
    {
        let mut j: usize = 0;
        while j < row_bytes
            invariant
                pixels@.len() == 4 * width as int * height as int,
                len == pixels@.len(),
                x1 + w1 <= width,
                y1 + h1 <= height,
                w1 >= 1,
                row < h1,
                j <= row_bytes,
                row_bytes as int == rb,
                rb == 4 * w1 as int,
                cv == rgba_block(pixels@, width as int, x1 as int, y1 as int, w1 as int, h1 as int),
                out@.len() == row as int * rb + j as int,
                forall|k: int| 0 <= k < out@.len() ==> out@[k] == #[trigger] cv[k],
            decreases row_bytes - j,
        {
            let ghost base = 4 * ((y1 + row) as int * width as int + x1 as int);
            proof {
                assert(base + j < 4 * width as int * height as int) by (nonlinear_arith)
                    requires
                        base == 4 * ((y1 + row) as int * width as int + x1 as int),
                        j < 4 * w1 as int,
                        x1 + w1 <= width,
                        y1 + row + 1 <= height,
                        width >= 0,
                ;
                assert(0 <= (y1 + row) as int * width as int) by (nonlinear_arith)
                    requires
                        width >= 0,
                ;
            }
            let idx: usize = 4 * ((y1 + row) as usize * width as usize + x1 as usize) + j;
            let v = pixels[idx];
            proof {
                let k = row as int * rb + j as int;
                lemma_fundamental_div_mod_converse(k, rb, row as int, j as int);
                assert(k < 4 * (w1 as int) * (h1 as int)) by (nonlinear_arith)
                    requires
                        k == row as int * rb + j as int,
                        rb == 4 * w1 as int,
                        j < rb,
                        row + 1 <= h1,
                ;
                assert(cv[k] == v);
            }
            out.push(v);
            j = j + 1;
        }
        proof {
            assert((row + 1) as int * rb == row as int * rb + rb) by (nonlinear_arith);
        }
        row = row + 1;
    }
    proof {
        assert(h1 as int * rb == 4 * (w1 as int) * (h1 as int)) by (nonlinear_arith)
            requires
                rb == 4 * w1 as int,
        ;
        assert(out@ =~= cv);
    }
    (out, w1, h1)
}

} // verus!
