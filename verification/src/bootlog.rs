//! The boot-log build's description of the firmware's display handoff.

use vstd::prelude::*;

verus! {

/// The pixel layout of the scan-out framebuffer.
#[derive(Clone, Copy, Debug, PartialEq, Eq, Structural)]
pub enum PixelFormat {
    /// Red, green, blue byte order.
    Rgb,
    /// Blue, green, red byte order.
    Bgr,
    /// One byte per pixel.
    U8,
    /// Any layout the log does not name.
    Other,
}

/// The name the boot log prints for a pixel format.
pub open spec fn pixel_format_spec(f: PixelFormat) -> Seq<char> {
    match f {
        PixelFormat::Rgb => "Rgb"@,
        PixelFormat::Bgr => "Bgr"@,
        PixelFormat::U8 => "U8"@,
        PixelFormat::Other => "Unknown"@,
    }
}

/// Names a pixel format.
pub fn pixel_format_name(f: PixelFormat) -> (r: &'static str)
    ensures
        r@ == pixel_format_spec(f),
{
    match f {
        PixelFormat::Rgb => "Rgb",
        PixelFormat::Bgr => "Bgr",
        PixelFormat::U8 => "U8",
        PixelFormat::Other => "Unknown",
    }
}

/// The name the boot log prints for where the loader found the monitor's EDID.
pub open spec fn edid_source_spec(src: u8) -> Seq<char> {
    if src == 1 { "ACTIVE-protocol"@ } else if src == 2 { "DISCOVERED-protocol"@ } else { "none"@ }
}

/// Names the EDID source code the loader handed over.
pub fn edid_source_name(src: u8) -> (r: &'static str)
    ensures
        r@ == edid_source_spec(src),
{
    if src == 1 {
        "ACTIVE-protocol"
    } else if src == 2 {
        "DISCOVERED-protocol"
    } else {
        "none"
    }
}

/// The name the boot log prints for what the loader did to the display mode.
pub open spec fn mode_action_spec(a: u8) -> Seq<char> {
    if a == 1 {
        "set EDID-native mode"@
    } else if a == 2 {
        "set fallback linear mode"@
    } else if a == 3 {
        "headless (no linear fb)"@
    } else if a == 4 {
        "headless (no GOP protocol)"@
    } else {
        "kept firmware current mode"@
    }
}

/// Names the loader's mode action code.
pub fn mode_action_name(a: u8) -> (r: &'static str)
    ensures
        r@ == mode_action_spec(a),
{
    if a == 1 {
        "set EDID-native mode"
    } else if a == 2 {
        "set fallback linear mode"
    } else if a == 3 {
        "headless (no linear fb)"
    } else if a == 4 {
        "headless (no GOP protocol)"
    } else {
        "kept firmware current mode"
    }
}

/// Bytes per scan-out row.
pub fn pitch_bytes(stride: usize, bytes_per_pixel: usize) -> (r: usize)
    requires
        stride * bytes_per_pixel <= usize::MAX,
    ensures
        r == stride * bytes_per_pixel,
{
    stride * bytes_per_pixel
}

/// Bytes the scan-out geometry spans (rows times pitch), which the log sets beside the
/// size the loader reported.
pub fn framebuffer_span(stride: usize, height: usize, bytes_per_pixel: usize) -> (r: usize)
    requires
        stride * height <= usize::MAX,
        stride * height * bytes_per_pixel <= usize::MAX,
    ensures
        r == stride * height * bytes_per_pixel,
{
    stride * height * bytes_per_pixel
}

} // verus!
