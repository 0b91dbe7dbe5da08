//! Build-configured seams of the boot path: what each optional rung does on this build,
//! given what the hardware reported, and the panel-geometry hints the input router uses.
//!
//! The kernel selects these with compile-time features; here the features are plain
//! values, so every configuration's behaviour is one contract.

use vstd::prelude::*;
use crate::geometry::demo_fps;

verus! {

/// The target architecture of a kernel image.
#[derive(Clone, Copy, Debug, PartialEq, Eq, Structural)]
pub enum Arch {
    /// x86-64 (UEFI).
    X86_64,
    /// AArch64 (Raspberry Pi, Jetson Orin, virt).
    Aarch64,
}

/// The features of a kernel image that the seams below depend on.
#[derive(Clone, Copy, Debug, PartialEq, Eq, Structural)]
pub struct BuildConfig {
    /// Target architecture.
    pub arch: Arch,
    /// Bare-metal Raspberry Pi boot path.
    pub baremetal: bool,
    /// Jetson Orin board.
    pub tegra: bool,
    /// Raspberry Pi board.
    pub pi: bool,
    /// x86 crispy desktop compositor.
    pub wc: bool,
    /// AArch64 desktop compositor family.
    pub desktop_firmware: bool,
    /// Software rasterizer demo on the Orin.
    pub rast: bool,
    /// Software rasterizer demo on the Pi.
    pub pirast: bool,
    /// EL0 demo task on the Orin.
    pub tegra_el0: bool,
    /// Orin console routed into a compositor window.
    pub orinconwin: bool,
}

/// The scan-out framebuffer geometry.
#[derive(Clone, Copy, Debug, PartialEq, Eq, Structural)]
pub struct PanelInfo {
    /// Width in pixels.
    pub width: usize,
    /// Height in pixels.
    pub height: usize,
    /// Pixels per row.
    pub stride: usize,
    /// Bytes per pixel.
    pub bytes_per_pixel: usize,
}

/// The panel width the input router clamps the pointer against: the panel's width, or
/// 0 when the panel lock was contended (the read is refused, never waited for) or the
/// framebuffer is unset.
pub fn pal_width_hint(panel: Option<PanelInfo>) -> (r: i32)
    ensures
        panel matches Some(p) ==> r == p.width as i32,
        panel is None ==> r == 0,
{
    match panel {
        Some(p) => p.width as i32,
        None => 0,
    }
}

/// The panel height the input router clamps the pointer against (see
/// [`pal_width_hint`]).
pub fn pal_height_hint(panel: Option<PanelInfo>) -> (r: i32)
    ensures
        panel matches Some(p) ==> r == p.height as i32,
        panel is None ==> r == 0,
{
    match panel {
        Some(p) => p.height as i32,
        None => 0,
    }
}

/// Whether the desktop compositor owns the panel backdrop (so the live shell is kept
/// off the glass): on x86 with the compositor, once it has taken the panel
/// (`uefi_desktop_active`); on AArch64 with the desktop family, always; otherwise never.
pub fn desktop_owns_backdrop(build: &BuildConfig, uefi_desktop_active: bool) -> (r: bool)
    ensures
        build.arch == Arch::X86_64 ==> r == (build.wc && uefi_desktop_active),
        build.arch == Arch::Aarch64 ==> r == build.desktop_firmware,
{
    match build.arch {
        Arch::X86_64 => build.wc && uefi_desktop_active,
        Arch::Aarch64 => build.desktop_firmware,
    }
}

/// Whether the Orin's console is live in its own compositor window: only on an
/// AArch64 Orin image routing the console into a window, and only once it is routed.
pub fn tegra_conwin_live(build: &BuildConfig, console_routed: bool) -> (r: bool)
    ensures
        r == (build.orinconwin && build.arch == Arch::Aarch64 && console_routed),
{
    build.orinconwin && build.arch == Arch::Aarch64 && console_routed
}

/// The Pi's desktop seam: reports the desktop activation's answer on an image that
/// carries the desktop family, and `false` (nothing activated) otherwise.
pub fn desktop_firmware_activate_maybe(build: &BuildConfig, activated: bool) -> (r: bool)
    ensures
        r == (build.desktop_firmware && activated),
{
    build.desktop_firmware && activated
}

/// Whether the boot console must stop mirroring onto the panel at a handoff: it must,
/// unless it is already routed into a window (a routed console does not write the panel,
/// so there is one panel writer either way).
pub fn fbcon_detach_needed(console_in_window: bool) -> (r: bool)
    ensures
        r == !console_in_window,
{
    !console_in_window
}

/// What a rasterizer demo rung does on this boot.
#[derive(Clone, Copy, Debug, PartialEq, Eq, Structural)]
pub enum DemoPlan {
    /// The image does not carry the demo.
    Disabled,
    /// Headless boot: the demo is skipped with a witness line.
    SkipHeadless,
    /// Run the demo; first detach the boot console from the panel when `detach`.
    Run { detach: bool },
}

/// The Orin rasterizer rung's plan, as a value.
pub open spec fn tegra_rast_spec(build: BuildConfig, panel_width: usize, conwin_live: bool) -> DemoPlan {
    if !(build.tegra && build.rast && build.arch == Arch::Aarch64) {
        DemoPlan::Disabled
    } else if panel_width == 0 {
        DemoPlan::SkipHeadless
    } else {
        DemoPlan::Run { detach: !conwin_live }
    }
}

/// The Orin rasterizer rung: disabled unless the image carries it; skipped on a
/// headless boot (zero-width scanout); otherwise run, detaching the boot console first
/// unless it is live in its own window.
pub fn tegra_rast_demo_maybe(build: &BuildConfig, panel_width: usize, conwin_live: bool) -> (r: DemoPlan)
    ensures
        r == tegra_rast_spec(*build, panel_width, conwin_live),
        !(build.tegra && build.rast && build.arch == Arch::Aarch64) ==> r == DemoPlan::Disabled,
        build.tegra && build.rast && build.arch == Arch::Aarch64 && panel_width == 0 ==> r == DemoPlan::SkipHeadless,
        build.tegra && build.rast && build.arch == Arch::Aarch64 && panel_width != 0 ==> r == (DemoPlan::Run { detach: !conwin_live }),
{
    if !(build.tegra && build.rast && build.arch == Arch::Aarch64) {
        DemoPlan::Disabled
    } else if panel_width == 0 {
        DemoPlan::SkipHeadless
    } else {
        DemoPlan::Run { detach: !conwin_live }
    }
}

/// The Pi rasterizer rung: disabled unless the image carries it; skipped when the
/// mailbox framebuffer has a zero dimension; otherwise run (the handoff has already
/// detached the boot console).
pub fn pi_rast_demo_maybe(build: &BuildConfig, panel_width: usize, panel_height: usize) -> (r: DemoPlan)
    ensures
        !(build.pi && build.pirast && build.arch == Arch::Aarch64) ==> r == DemoPlan::Disabled,
        build.pi && build.pirast && build.arch == Arch::Aarch64 && (panel_width == 0 || panel_height == 0) ==> r == DemoPlan::SkipHeadless,
        build.pi && build.pirast && build.arch == Arch::Aarch64 && panel_width != 0 && panel_height != 0 ==> r == (DemoPlan::Run { detach: false }),
{
    if !(build.pi && build.pirast && build.arch == Arch::Aarch64) {
        DemoPlan::Disabled
    } else if panel_width == 0 || panel_height == 0 {
        DemoPlan::SkipHeadless
    } else {
        DemoPlan::Run { detach: false }
    }
}

/// The frames the Pi rasterizer rung renders.
pub const PI_RAST_FRAMES: u32 = 90;

/// The summary line of the Pi rasterizer rung: frames rendered, milliseconds taken and
/// the frame rate as whole frames per second and three decimal digits.
#[derive(Clone, Copy, Debug, PartialEq, Eq, Structural)]
pub struct DemoReport {
    /// Frames rendered.
    pub frames: u32,
    /// Milliseconds the run took (at least 1).
    pub elapsed_ms: u64,
    /// Whole frames per second.
    pub fps_whole: u64,
    /// Thousandths of a frame per second, below 1000.
    pub fps_frac: u64,
}

/// The run's duration from the clock readings taken around it; a clock that did not
/// advance (or went back) counts as 1 ms, so the rate is always defined.
pub open spec fn demo_elapsed(t0: u64, t1: u64) -> u64 {
    if t1 > t0 { (t1 - t0) as u64 } else { 1 }
}

/// The Pi rasterizer rung's summary, from the clock readings just before and just after
/// the run: `PI_RAST_FRAMES` frames, the elapsed milliseconds, and the rate in
/// thousandths of a frame per second split into whole and decimal parts.
pub fn pi_rast_report(t0: u64, t1: u64) -> (r: DemoReport)
    ensures
        r.frames == PI_RAST_FRAMES,
        r.elapsed_ms == demo_elapsed(t0, t1),
        r.fps_whole == (PI_RAST_FRAMES as int * 1_000_000 / demo_elapsed(t0, t1) as int) / 1000,
        r.fps_frac == (PI_RAST_FRAMES as int * 1_000_000 / demo_elapsed(t0, t1) as int) % 1000,
{
    let (elapsed, whole, frac) = demo_fps(PI_RAST_FRAMES, t0, t1);
    DemoReport { frames: PI_RAST_FRAMES, elapsed_ms: elapsed, fps_whole: whole, fps_frac: frac }
}

/// What the Orin EL0 rung does on this boot.
#[derive(Clone, Copy, Debug, PartialEq, Eq, Structural)]
pub enum El0Start {
    /// The image does not carry the rung.
    Disabled,
    /// The user window could not be installed: the round trip fails with a witness line.
    Fail,
    /// Spawn the EL0 task on the boot core and arm its verdict task.
    Spawn,
}

/// The Orin EL0 rung, given whether the user window's page tables installed.
pub fn tegra_el0_start_maybe(build: &BuildConfig, window_installed: bool) -> (r: El0Start)
    ensures
        !(build.tegra_el0 && build.arch == Arch::Aarch64) ==> r == El0Start::Disabled,
        build.tegra_el0 && build.arch == Arch::Aarch64 && !window_installed ==> r == El0Start::Fail,
        build.tegra_el0 && build.arch == Arch::Aarch64 && window_installed ==> r == El0Start::Spawn,
{
    if !(build.tegra_el0 && build.arch == Arch::Aarch64) {
        El0Start::Disabled
    } else if !window_installed {
        El0Start::Fail
    } else {
        El0Start::Spawn
    }
}

/// A console live in its window is never detached by the rasterizer rung, so the
/// window keeps receiving output.
pub proof fn lemma_live_console_not_detached(build: BuildConfig, panel_width: usize)
    requires
        build.tegra && build.rast && build.arch == Arch::Aarch64,
        panel_width != 0,
    ensures
        tegra_rast_spec(build, panel_width, true) == (DemoPlan::Run { detach: false }),
{
}

} // verus!
