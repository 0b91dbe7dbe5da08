//! Panel arithmetic: the live shell window's size and place, the compositor stage's
//! coverage of the panel, and the rates the render witnesses print.

use vstd::prelude::*;
use crate::sat::{sat_mul_u64, sat_mul_u64_spec, sat_mul_usize, sat_mul_usize_spec};

verus! {

/// `v` clamped into `[lo, hi]`.
pub open spec fn clamp_spec(v: usize, lo: usize, hi: usize) -> usize {
    if v < lo { lo } else if v > hi { hi } else { v }
}

/// Clamps `v` into `[lo, hi]` (std's `clamp`, which panics when `lo > hi`).
pub fn clamp_usize(v: usize, lo: usize, hi: usize) -> (r: usize)
    requires
        lo <= hi,
    ensures
        r == clamp_spec(v, lo, hi),
{
    if v < lo { lo } else if v > hi { hi } else { v }
}

/// The larger of two sizes.
pub open spec fn max_spec(a: usize, b: usize) -> usize {
    if a >= b { a } else { b }
}

/// The shell window's surface: width, height, row stride in bytes and byte length.
#[derive(Clone, Copy, Debug, PartialEq, Eq, Structural)]
pub struct ShellSurface {
    /// Surface width in pixels.
    pub width: usize,
    /// Surface height in pixels.
    pub height: usize,
    /// Bytes per row (4 bytes per pixel).
    pub stride: usize,
    /// Bytes in the surface.
    pub len: usize,
}

/// The shell window's surface for a `pw` x `ph` panel whose top `wtop` rows are taken by
/// the menu bar: roughly half the work area, at least 320 x 200, or `None` when the
/// byte length does not fit.
pub open spec fn shell_surface_spec(pw: usize, ph: usize, wtop: usize) -> Option<ShellSurface> {
    let workh = if ph >= wtop { (ph - wtop) as usize } else { 0usize };
    let cw = clamp_spec(pw / 2, 320, max_spec(pw, 320));
    let ch = clamp_spec(workh / 2, 200, max_spec(workh, 200));
    let stride = cw * 4;
    if ch * stride > usize::MAX {
        None
    } else {
        Some(ShellSurface { width: cw, height: ch, stride: stride as usize, len: (ch * stride) as usize })
    }
}

/// Sizes the live shell's compositor window.
pub fn shell_surface(pw: usize, ph: usize, wtop: usize) -> (r: Option<ShellSurface>)
    requires
        pw / 2 <= usize::MAX / 4,
    ensures
        r == shell_surface_spec(pw, ph, wtop),
{
    let workh = ph.saturating_sub(wtop);
    let cw = clamp_usize(pw / 2, 320, if pw > 320 { pw } else { 320 });
    let ch = clamp_usize(workh / 2, 200, if workh > 200 { workh } else { 200 });
    let stride = cw * 4;
    let len = match ch.checked_mul(stride) {
        Some(l) => l,
        None => return None,
    };
    assert(len > 0) by (nonlinear_arith)
        requires
            ch >= 200,
            stride >= 1280,
            len == ch * stride,
    ;
    if cw == 0 || ch == 0 || len == 0 {
        return None;
    }
    Some(ShellSurface { width: cw, height: ch, stride, len })
}

/// The work area's rows left below a window of outer height `oh` (0 when it does not fit).
pub open spec fn origin_gap(ph: usize, wtop: usize, oh: usize) -> int {
    if ph >= wtop && (ph - wtop) >= oh { ph - wtop - oh } else { 0 }
}

/// Where the window's outer box (`ow` x `oh`) goes: centred horizontally, and three
/// quarters of the way down the work area below the menu bar.
pub fn shell_origin(pw: usize, ph: usize, wtop: usize, ow: usize, oh: usize) -> (r: (usize, usize))
    requires
        origin_gap(ph, wtop, oh) * 3 <= usize::MAX,
        wtop + origin_gap(ph, wtop, oh) * 3 / 4 <= usize::MAX,
    ensures
        r.0 == (if pw >= ow { (pw - ow) / 2 } else { 0 }),
        r.1 == wtop + origin_gap(ph, wtop, oh) * 3 / 4,
{
    let workh = ph.saturating_sub(wtop);
    let ox = pw.saturating_sub(ow) / 2;
    let oy = wtop + workh.saturating_sub(oh) * 3 / 4;
    (ox, oy)
}

/// How much of the panel the reserved compositor stage covers, in percent (0 for an
/// empty panel), computed with saturating products.
pub open spec fn stage_cover_spec(staged: usize, pw: usize, ph: usize, bpp: usize) -> usize {
    let panel = sat_mul_usize_spec(sat_mul_usize_spec(pw, ph), bpp);
    if panel == 0 { 0 } else { (sat_mul_usize_spec(staged, 100) / panel) as usize }
}

/// The stage's coverage of the panel, in percent.
pub fn stage_cover(staged: usize, pw: usize, ph: usize, bpp: usize) -> (r: usize)
    ensures
        r == stage_cover_spec(staged, pw, ph, bpp),
{
    let panel = sat_mul_usize(sat_mul_usize(pw, ph), bpp);
    if panel == 0 { 0 } else { sat_mul_usize(staged, 100) / panel }
}

/// A count over a window of `span` milliseconds, per second (saturating, and a zero
/// span counts as one millisecond).
pub fn per_second(count: u64, span: u64) -> (r: u64)
    ensures
        r == sat_mul_u64_spec(count, 1000) / (if span == 0 { 1 } else { span }),
{
    let d = if span == 0 { 1 } else { span };
    sat_mul_u64(count, 1000) / d
}

/// The mean cost per pass (a window with no passes counts as one).
pub fn mean_per_pass(cycles: u64, passes: u64) -> (r: u64)
    ensures
        r == cycles / (if passes == 0 { 1 } else { passes }),
{
    cycles / (if passes == 0 { 1 } else { passes })
}

/// The rasterizer demo's frame rate in thousandths of a frame per second, from the
/// clock readings before and after the run (a non-advancing clock counts as 1 ms),
/// split into whole frames per second and the three decimal digits.
pub fn demo_fps(frames: u32, t0: u64, t1: u64) -> (r: (u64, u64, u64))
    ensures
        ({
            let elapsed = if t1 > t0 { (t1 - t0) as u64 } else { 1u64 };
            let x1000 = (frames as int * 1000 * 1000) / (elapsed as int);
            r.0 == elapsed && r.1 == x1000 / 1000 && r.2 == x1000 % 1000
        }),
{
    let elapsed = t1.saturating_sub(t0);
    let elapsed = if elapsed > 1 { elapsed } else { 1 };
    let x1000 = (frames as u64 * 1000 * 1000) / elapsed;
    (elapsed, x1000 / 1000, x1000 % 1000)
}

/// The shell window is never smaller than 320 x 200 and never wider than the panel's
/// half when the panel is at least 640 wide.
pub proof fn lemma_shell_surface_bounds(pw: usize, ph: usize, wtop: usize)
    requires
        pw / 2 <= usize::MAX / 4,
    ensures
        shell_surface_spec(pw, ph, wtop) matches Some(s) ==> s.width >= 320 && s.height >= 200
            && s.stride == s.width * 4 && s.len == s.height * s.stride
            && (pw >= 640 ==> s.width == pw / 2),
{
    if pw >= 640 {
        assert(pw / 2 >= 320);
        assert(pw / 2 <= pw);
    }
}

} // verus!
