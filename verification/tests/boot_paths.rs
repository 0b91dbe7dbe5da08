use lib::event::Event;
use lib::tegra::{supstate_route, SupRoute};
use lib::seams::{pi_rast_report, DemoReport};
use lib::bootlog::{edid_source_name, framebuffer_span, mode_action_name, pitch_bytes, pixel_format_name, PixelFormat};
use lib::placement::{echo_bytes, pi_service_cores, sched_split};
use lib::seams::{
    desktop_firmware_activate_maybe, desktop_owns_backdrop, fbcon_detach_needed, pal_height_hint, pal_width_hint,
    pi_rast_demo_maybe, tegra_conwin_live, tegra_el0_start_maybe, tegra_rast_demo_maybe, Arch, BuildConfig, DemoPlan,
    El0Start, PanelInfo,
};
use lib::tegra::{
    activation_verdict, census_period, current_el, daif_bits, desk_arm_decide, furn_arm_decide, furn_retry, furn_settle,
    gib_index, held_reason, hole_source, mmu_enabled, render_decline, seam_gate, shell_entry_deadline, shell_entry_step,
    stack_depth, sweep_period, xusb_iommu_or_default, Activation, DeskSeam, FurnSeam, RenderDecline, SeamGate, ShellEntry,
    StackDepth,
};
use lib::verdicts::{panel_lock_check, router_check_pass, storm_bounded, wrap_advance};

fn build(arch: Arch) -> BuildConfig {
    BuildConfig {
        arch,
        baremetal: false,
        tegra: false,
        pi: false,
        wc: false,
        desktop_firmware: false,
        rast: false,
        pirast: false,
        tegra_el0: false,
        orinconwin: false,
    }
}

#[test]
fn panel_hints() {
    let p = PanelInfo { width: 1920, height: 1080, stride: 1920, bytes_per_pixel: 4 };
    assert_eq!(pal_width_hint(Some(p)), 1920);
    assert_eq!(pal_height_hint(Some(p)), 1080);
    assert_eq!(pal_width_hint(None), 0);
    assert_eq!(pal_height_hint(None), 0);
}

#[test]
fn backdrop_ownership_by_build() {
    let mut b = build(Arch::X86_64);
    assert!(!desktop_owns_backdrop(&b, true));
    b.wc = true;
    assert!(desktop_owns_backdrop(&b, true));
    assert!(!desktop_owns_backdrop(&b, false));
    let mut a = build(Arch::Aarch64);
    assert!(!desktop_owns_backdrop(&a, true));
    a.desktop_firmware = true;
    assert!(desktop_owns_backdrop(&a, false));
}

#[test]
fn console_window_seams() {
    let mut a = build(Arch::Aarch64);
    a.tegra = true;
    assert!(!tegra_conwin_live(&a, true));
    a.orinconwin = true;
    assert!(tegra_conwin_live(&a, true));
    assert!(!tegra_conwin_live(&a, false));
    assert!(!desktop_firmware_activate_maybe(&a, true));
    a.desktop_firmware = true;
    assert!(desktop_firmware_activate_maybe(&a, true));
    assert!(!desktop_firmware_activate_maybe(&a, false));
    assert!(fbcon_detach_needed(false));
    assert!(!fbcon_detach_needed(true));
}

#[test]
fn demo_rungs() {
    let mut a = build(Arch::Aarch64);
    a.tegra = true;
    assert_eq!(tegra_rast_demo_maybe(&a, 1920, false), DemoPlan::Disabled);
    a.rast = true;
    assert_eq!(tegra_rast_demo_maybe(&a, 0, false), DemoPlan::SkipHeadless);
    assert_eq!(tegra_rast_demo_maybe(&a, 1920, false), DemoPlan::Run { detach: true });
    assert_eq!(tegra_rast_demo_maybe(&a, 1920, true), DemoPlan::Run { detach: false });
    let mut p = build(Arch::Aarch64);
    p.pi = true;
    assert_eq!(pi_rast_demo_maybe(&p, 1920, 1080), DemoPlan::Disabled);
    p.pirast = true;
    assert_eq!(pi_rast_demo_maybe(&p, 1920, 0), DemoPlan::SkipHeadless);
    assert_eq!(pi_rast_demo_maybe(&p, 0, 1080), DemoPlan::SkipHeadless);
    assert_eq!(pi_rast_demo_maybe(&p, 1920, 1080), DemoPlan::Run { detach: false });
    let mut e = build(Arch::Aarch64);
    assert_eq!(tegra_el0_start_maybe(&e, true), El0Start::Disabled);
    e.tegra_el0 = true;
    assert_eq!(tegra_el0_start_maybe(&e, false), El0Start::Fail);
    assert_eq!(tegra_el0_start_maybe(&e, true), El0Start::Spawn);
    let mut x = build(Arch::X86_64);
    x.tegra_el0 = true;
    assert_eq!(tegra_el0_start_maybe(&x, true), El0Start::Disabled);
}

#[test]
fn core_placement() {
    assert_eq!(sched_split(&vec![1, 2, 3]), Some((1, 3)));
    assert_eq!(sched_split(&vec![1]), None);
    assert_eq!(sched_split(&vec![]), None);
    assert_eq!(sched_split(&vec![2, 2]), None);
    assert_eq!(pi_service_cores(&vec![1, 2, 3]), Some((1, 3)));
    assert_eq!(pi_service_cores(&vec![1]), Some((1, 1)));
    assert_eq!(pi_service_cores(&vec![]), None);
    assert_eq!(echo_bytes(b'\r'), vec![13, 10]);
    assert_eq!(echo_bytes(b'a'), vec![b'a']);
}

#[test]
fn register_fields() {
    assert_eq!(current_el(0b1000), 2);
    assert_eq!(current_el(0b0100), 1);
    assert_eq!(current_el(u64::MAX), 3);
    assert_eq!(daif_bits(0x3c0), 0xf);
    assert_eq!(daif_bits(0x080), 0x2);
    assert!(mmu_enabled(0x30d0_1805));
    assert!(!mmu_enabled(0x30d0_1804));
    assert_eq!(gib_index(0x8000_0000), 2);
    assert_eq!(gib_index(0x3fff_ffff), 0);
}

#[test]
fn console_pump_timing() {
    assert_eq!(shell_entry_deadline(0), 500_000_000);
    assert_eq!(shell_entry_deadline(31_250_000), 250_000_000);
    assert_eq!(shell_entry_deadline(u64::MAX), u64::MAX);
    assert_eq!(sweep_period(0), 15_625_000);
    assert_eq!(sweep_period(1000), 250);
    assert_eq!(census_period(0), 62_500_000);
    assert_eq!(census_period(19_200_000), 19_200_000);
    assert_eq!(shell_entry_step(Some(b'h'), 0, 0, 100), ShellEntry::FirstKey(b'h'));
    assert_eq!(shell_entry_step(None, 50, 0, 100), ShellEntry::Wait);
    assert_eq!(shell_entry_step(None, 100, 0, 100), ShellEntry::Quiescent);
    assert_eq!(shell_entry_step(None, 10, u64::MAX - 100, 100), ShellEntry::Quiescent);
}

#[test]
fn bringup_labels() {
    assert_eq!(hole_source(1), "DTB /reserved-memory");
    assert_eq!(hole_source(2), "QUIRK (DTB silent; extent = bounded GUESS)");
    assert_eq!(hole_source(7), "unknown");
    assert_eq!(held_reason(true, true), "rung3-unlanded+stop-line-5.2");
    assert_eq!(held_reason(true, false), "rung3-unlanded");
    assert_eq!(held_reason(false, true), "stop-line-5.2");
    assert_eq!(pixel_format_name(PixelFormat::Rgb), "Rgb");
    assert_eq!(pixel_format_name(PixelFormat::Bgr), "Bgr");
    assert_eq!(pixel_format_name(PixelFormat::U8), "U8");
    assert_eq!(pixel_format_name(PixelFormat::Other), "Unknown");
    assert_eq!(edid_source_name(1), "ACTIVE-protocol");
    assert_eq!(edid_source_name(2), "DISCOVERED-protocol");
    assert_eq!(edid_source_name(0), "none");
    assert_eq!(mode_action_name(1), "set EDID-native mode");
    assert_eq!(mode_action_name(2), "set fallback linear mode");
    assert_eq!(mode_action_name(3), "headless (no linear fb)");
    assert_eq!(mode_action_name(4), "headless (no GOP protocol)");
    assert_eq!(mode_action_name(0), "kept firmware current mode");
    assert_eq!(pitch_bytes(1920, 4), 7680);
    assert_eq!(framebuffer_span(1920, 1080, 4), 8_294_400);
}

#[test]
fn iommu_fallback() {
    assert_eq!(xusb_iommu_or_default(None), ([0x0800_0000, 0x0700_0000], 2, 0x0e));
    assert_eq!(xusb_iommu_or_default(Some(([1, 2], 1, 5))), ([1, 2], 1, 5));
}

#[test]
fn stack_depth_witness() {
    assert_eq!(stack_depth(0x1000, 0x0f00), StackDepth::Consumed(0x100));
    assert_eq!(stack_depth(0x1000, 0x1000), StackDepth::Consumed(0));
    assert_eq!(stack_depth(0, 0x0f00), StackDepth::AnchorNeverRan);
    assert_eq!(stack_depth(0x0e00, 0x0f00), StackDepth::AnchorBelowSeam);
}

#[test]
fn arming_seams() {
    assert_eq!(seam_gate(true, true, 10), SeamGate::AlreadyArmed);
    assert_eq!(seam_gate(false, false, 10), SeamGate::NoPanel);
    assert_eq!(seam_gate(false, true, 0), SeamGate::StageUnreserved);
    assert_eq!(seam_gate(false, true, 10), SeamGate::Proceed);
    assert_eq!(desk_arm_decide(false, true, 10, 1, true, true), DeskSeam::TableNotEmpty { live: 1 });
    assert_eq!(desk_arm_decide(false, true, 10, 0, false, false), DeskSeam::Held { click_unlanded: true, cascade_held: true });
    assert_eq!(desk_arm_decide(false, true, 10, 0, true, false), DeskSeam::Held { click_unlanded: false, cascade_held: true });
    assert_eq!(desk_arm_decide(false, true, 10, 0, true, true), DeskSeam::Activate);
    assert_eq!(desk_arm_decide(true, true, 10, 0, true, true), DeskSeam::Refused(SeamGate::AlreadyArmed));
    assert_eq!(activation_verdict(true, true), (Activation::Routed, true));
    assert_eq!(activation_verdict(false, false), (Activation::Unrouted, false));
    assert_eq!(activation_verdict(true, false), (Activation::Incoherent, false));
    assert_eq!(activation_verdict(false, true), (Activation::Incoherent, false));
    assert_eq!(furn_arm_decide(false, true, 10, false), FurnSeam::BelowBarFloor);
    assert_eq!(furn_arm_decide(false, true, 10, true), FurnSeam::Enable);
    assert_eq!(furn_arm_decide(false, true, 0, true), FurnSeam::Refused(SeamGate::StageUnreserved));
    assert!(furn_retry(true, false));
    assert!(!furn_retry(true, true));
    assert!(!furn_retry(false, false));
    assert_eq!(furn_settle(true, false), (true, true));
    assert_eq!(furn_settle(false, false), (false, false));
    assert_eq!(furn_settle(false, true), (false, true));
    assert_eq!(render_decline(false, false, true, true), Some(RenderDecline::ConsoleAlreadyWindowed));
    assert_eq!(render_decline(false, false, true, false), Some(RenderDecline::NoPainter));
    assert_eq!(render_decline(false, true, true, false), None);
    assert_eq!(render_decline(false, false, false, false), None);
}

#[test]
fn self_check_verdicts() {
    assert!(router_check_pass(2, 7, 7));
    assert!(!router_check_pass(1, 7, 7));
    assert!(!router_check_pass(2, 7, 8));
    assert!(storm_bounded(256, 37, 37, 256, 0, 256, 37));
    assert!(!storm_bounded(256, 37, 37, 256, 1, 256, 37));
    assert!(!storm_bounded(255, 38, 38, 255, 0, 256, 37));
    assert_eq!(wrap_advance(256, 24), 224);
    assert_eq!(panel_lock_check(0, 0, 3, 5, 1920, 1920, 10, 11), (true, true));
    assert_eq!(panel_lock_check(0, 0, 3, 4, 1920, 1920, 10, 10), (false, false));
    assert_eq!(panel_lock_check(1920, 0, 3, 5, 0, 1920, 10, 11), (false, false));
}

#[test]
fn pi_rast_summary_line() {
    assert_eq!(
        pi_rast_report(1000, 5500),
        DemoReport { frames: 90, elapsed_ms: 4500, fps_whole: 20, fps_frac: 0 }
    );
    assert_eq!(
        pi_rast_report(1000, 8000),
        DemoReport { frames: 90, elapsed_ms: 7000, fps_whole: 12, fps_frac: 857 }
    );
    assert_eq!(
        pi_rast_report(5500, 1000),
        DemoReport { frames: 90, elapsed_ms: 1, fps_whole: 90000, fps_frac: 0 }
    );
}

#[test]
fn supervisor_pump_routes() {
    assert_eq!(supstate_route(Event::Key(b'q')), SupRoute::KeySeam(b'q'));
    assert_eq!(supstate_route(Event::Mouse { x: 1, y: -1 }), SupRoute::Pointer);
    assert_eq!(supstate_route(Event::MouseAbsolute { x: 10, y: 20 }), SupRoute::Pointer);
    assert_eq!(supstate_route(Event::Button(2)), SupRoute::ButtonLog(2));
    assert_eq!(supstate_route(Event::Timer), SupRoute::Ignore);
    assert_eq!(supstate_route(Event::KeyUp(b'q')), SupRoute::Ignore);
}
