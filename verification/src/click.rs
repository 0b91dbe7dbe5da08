//! Pointer clicks on the shared text-console model: press-edge detection and the
//! hit test that splits the panel into the console and the bottom status strip.

use vstd::prelude::*;
use crate::sat::{sat_sub_i32, sat_sub_i32_spec};

verus! {

/// The view a screen point falls in.
#[derive(Clone, Copy, Debug, PartialEq, Eq, Structural)]
pub enum Click1Hit {
    /// The bottom status strip (host, lease address, wall clock).
    Status,
    /// The console / shell text area.
    Console,
}

/// The witness name of a hit view.
pub open spec fn hit_name_spec(hit: Click1Hit) -> Seq<char> {
    match hit {
        Click1Hit::Status => "status"@,
        Click1Hit::Console => "console"@,
    }
}

impl Click1Hit {
    /// The name the `[click1]` witness prints for this view.
    pub fn name(self) -> (r: &'static str)
        ensures
            r@ == hit_name_spec(self),
    {
        match self {
            Click1Hit::Status => "status",
            Click1Hit::Console => "console",
        }
    }
}

/// Where the status strip's band starts on a panel `height` pixels tall with text lines
/// `line_h` pixels tall: `height - line_h`, computed in `i32` with saturation.
pub open spec fn band_y(height: usize, line_h: usize) -> i32 {
    sat_sub_i32_spec((height as i32) as int, (line_h as i32) as int)
}

/// The hit test, as a function of the pointer's row and the panel geometry.
pub open spec fn hit_test_spec(y: i32, height: usize, line_h: usize) -> Option<Click1Hit> {
    let h = height as i32;
    if y < 0 || y >= h {
        None
    } else if y >= band_y(height, line_h) {
        Some(Click1Hit::Status)
    } else {
        Some(Click1Hit::Console)
    }
}

/// Hit-tests a pointer row against the shared model: on or below the strip's band is
/// the status strip, above it the console, off the panel nothing.
pub fn click1_hit_test(y: i32, height: usize, line_h: usize) -> (r: Option<Click1Hit>)
    ensures
        r == hit_test_spec(y, height, line_h),
{
    let h = height as i32;
    let lh = line_h as i32;
    let band = sat_sub_i32(h, lh);
    if y < 0 || y >= h {
        None
    } else if y >= band {
        Some(Click1Hit::Status)
    } else {
        Some(Click1Hit::Console)
    }
}

/// The buttons newly pressed since the previous report: set now, clear before.
pub open spec fn press_edges_spec(mask: u8, prev: u8) -> u8 {
    mask & !prev
}

/// The newly pressed buttons of a report.
pub fn press_edges(mask: u8, prev: u8) -> (r: u8)
    ensures
        r == press_edges_spec(mask, prev),
{
    mask & !prev
}

/// What the render task does with one button report.
#[derive(Clone, Copy, Debug, PartialEq, Eq, Structural)]
pub enum ClickPlan {
    /// No new button went down (a release, or an unchanged held set): nothing.
    NoPress,
    /// A press edge: witness it with the hit view, and reassert the console's input
    /// line when `activate_console`.
    Press { hit: Option<Click1Hit>, activate_console: bool },
}

/// Decides a button report. `prev` is the button set of the previous report (the caller
/// stores `mask` as the next `prev` whatever the result), `y` the pointer row, and
/// `backdrop_console` whether the shell still paints the panel backdrop (when it is a
/// window, the backdrop holds nothing to activate).
pub fn click1_dispatch(mask: u8, prev: u8, y: i32, height: usize, line_h: usize, backdrop_console: bool) -> (r: ClickPlan)
    ensures
        press_edges_spec(mask, prev) == 0 ==> r == ClickPlan::NoPress,
        press_edges_spec(mask, prev) != 0 ==> r == (ClickPlan::Press {
            hit: hit_test_spec(y, height, line_h),
            activate_console: hit_test_spec(y, height, line_h) == Some(Click1Hit::Console) && backdrop_console,
        }),
{
    let pressed = press_edges(mask, prev);
    if pressed == 0 {
        return ClickPlan::NoPress;
    }
    let hit = click1_hit_test(y, height, line_h);
    let activate = match hit {
        Some(Click1Hit::Console) => backdrop_console,
        _ => false,
    };
    ClickPlan::Press { hit, activate_console: activate }
}

/// The two views tile the panel: every row on the panel hits one of them.
pub proof fn lemma_views_tile_panel(y: i32, height: usize, line_h: usize)
    requires
        0 <= y < height as i32,
    ensures
        hit_test_spec(y, height, line_h) is Some,
{
}

/// A held button is acted on once: repeating the same report, or releasing it, is not
/// a press.
pub proof fn lemma_press_fires_once(mask: u8)
    ensures
        press_edges_spec(mask, mask) == 0,
        press_edges_spec(0, mask) == 0,
{
    assert(mask & !mask == 0) by (bit_vector);
    assert(0u8 & !mask == 0) by (bit_vector);
}

/// Pressing a button while none is held is a press edge.
pub proof fn lemma_fresh_press_is_edge(mask: u8)
    requires
        mask != 0,
    ensures
        press_edges_spec(mask, 0) == mask,
{
    assert(mask & !0u8 == mask) by (bit_vector);
}

} // verus!
