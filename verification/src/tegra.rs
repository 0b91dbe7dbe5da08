//! Decisions of the Jetson Orin (Tegra234) bring-up path: register-field decoding for
//! the boot witnesses, the console pump's timing, and the one-shot arming seams of the
//! desktop rungs.

use vstd::prelude::*;
use crate::event::Event;

verus! {

/// The generic timer frequency assumed when CNTFRQ reads 0.
pub const FALLBACK_CNTFRQ: u64 = 62_500_000;

/// The exception level encoded in a CurrentEL value (bits 3:2).
pub fn current_el(raw: u64) -> (r: u64)
    ensures
        r == (raw >> 2u64) & 3u64,
        r <= 3,
{
    let r = (raw >> 2u64) & 3u64;
    assert(((raw >> 2u64) & 3u64) <= 3u64) by (bit_vector);
    r
}

/// The D, A, I, F mask bits of a DAIF value (bits 9:6).
pub fn daif_bits(raw: u64) -> (r: u64)
    ensures
        r == (raw >> 6u64) & 0xfu64,
        r <= 15,
{
    let r = (raw >> 6u64) & 0xfu64;
    assert(((raw >> 6u64) & 0xfu64) <= 15u64) by (bit_vector);
    r
}

/// Whether an SCTLR value has the MMU enable bit (bit 0) set.
pub fn mmu_enabled(sctlr: u64) -> (r: bool)
    ensures
        r == (sctlr & 1u64 != 0),
{
    sctlr & 1u64 != 0
}

/// The 1 GiB region an address falls in (its level-1 table index).
pub fn gib_index(addr: u64) -> (r: u64)
    ensures
        r == addr / 0x4000_0000,
{
    let r = addr >> 30u64;
    assert(addr >> 30u64 == addr / 0x4000_0000) by (bit_vector);
    r
}

/// The timer frequency to schedule by: CNTFRQ, or the fallback when it reads 0.
pub open spec fn timer_freq(cntfrq: u64) -> u64 {
    if cntfrq == 0 { FALLBACK_CNTFRQ } else { cntfrq }
}

/// How long phase 1 of the console pump waits for a first key before taking the panel:
/// eight seconds of timer ticks (saturating).
pub fn shell_entry_deadline(cntfrq: u64) -> (r: u64)
    ensures
        r == (if timer_freq(cntfrq) as int * 8 > u64::MAX { u64::MAX } else { (timer_freq(cntfrq) * 8) as u64 }),
{
    let f = if cntfrq == 0 { FALLBACK_CNTFRQ } else { cntfrq };
    match f.checked_mul(8) {
        Some(v) => v,
        None => u64::MAX,
    }
}

/// The idle-sweep cadence of the console pump: a quarter second of timer ticks.
pub fn sweep_period(cntfrq: u64) -> (r: u64)
    ensures
        r == timer_freq(cntfrq) / 4,
{
    (if cntfrq == 0 { FALLBACK_CNTFRQ } else { cntfrq }) / 4
}

/// The census cadence of the Orin render pass: one second of timer ticks.
pub fn census_period(cntfrq: u64) -> (r: u64)
    ensures
        r == timer_freq(cntfrq),
{
    if cntfrq == 0 { FALLBACK_CNTFRQ } else { cntfrq }
}

/// Phase 1 of the console pump, per polled event.
#[derive(Clone, Copy, Debug, PartialEq, Eq, Structural)]
pub enum ShellEntry {
    /// A key arrived: take the panel and feed it to the shell.
    FirstKey(u8),
    /// The deadline passed with no key: take the panel and show the prompt.
    Quiescent,
    /// Keep the boot log on the panel and poll again.
    Wait,
}

/// Decides phase 1 for one poll: a key enters the shell with it; anything else (or
/// nothing) enters the shell only once the deadline has passed since phase 1 began.
pub fn shell_entry_step(key: Option<u8>, now: u64, start: u64, deadline: u64) -> (r: ShellEntry)
    ensures
        key matches Some(c) ==> r == ShellEntry::FirstKey(c),
        key is None && now.wrapping_sub(start) >= deadline ==> r == ShellEntry::Quiescent,
        key is None && now.wrapping_sub(start) < deadline ==> r == ShellEntry::Wait,
{
    match key {
        Some(c) => ShellEntry::FirstKey(c),
        None => {
            if now.wrapping_sub(start) >= deadline {
                ShellEntry::Quiescent
            } else {
                ShellEntry::Wait
            }
        },
    }
}

/// The label of a reserved-memory hole's source in the MMU witness.
pub open spec fn hole_source_spec(src: u32) -> Seq<char> {
    if src == 1 {
        "DTB /reserved-memory"@
    } else if src == 2 {
        "QUIRK (DTB silent; extent = bounded GUESS)"@
    } else {
        "unknown"@
    }
}

/// Names the source of a reserved-memory hole.
pub fn hole_source(src: u32) -> (r: &'static str)
    ensures
        r@ == hole_source_spec(src),
{
    if src == 1 {
        "DTB /reserved-memory"
    } else if src == 2 {
        "QUIRK (DTB silent; extent = bounded GUESS)"
    } else {
        "unknown"
    }
}

/// The XUSB stream-table bases and stream id used when the DTB names no IOMMU: two
/// bases (0x0800_0000, 0x0700_0000) and stream id 0x0e.
pub fn xusb_iommu_or_default(found: Option<([u64; 2], usize, u32)>) -> (r: ([u64; 2], usize, u32))
    ensures
        found matches Some(f) ==> r == f,
        found is None ==> r.0@ == seq![0x0800_0000u64, 0x0700_0000u64] && r.1 == 2 && r.2 == 0x0e,
{
    match found {
        Some(f) => f,
        None => {
            let bases: [u64; 2] = [0x0800_0000u64, 0x0700_0000u64];
            assert(bases@ =~= seq![0x0800_0000u64, 0x0700_0000u64]);
            (bases, 2, 0x0e)
        },
    }
}

/// The boot-core stack depth witness.
#[derive(Clone, Copy, Debug, PartialEq, Eq, Structural)]
pub enum StackDepth {
    /// Bytes of stack consumed between the anchor and the seam.
    Consumed(u64),
    /// The anchor read never ran.
    AnchorNeverRan,
    /// The anchor lies below the seam: the two reads are not on one descending chain.
    AnchorBelowSeam,
}

/// The stack consumed between the kernel-entry anchor and a later seam (the stack grows
/// down), or why no number can be given.
pub fn stack_depth(anchor: u64, here: u64) -> (r: StackDepth)
    ensures
        anchor != 0 && anchor >= here ==> r == StackDepth::Consumed((anchor - here) as u64),
        anchor == 0 ==> r == StackDepth::AnchorNeverRan,
        anchor != 0 && anchor < here ==> r == StackDepth::AnchorBelowSeam,
{
    if anchor != 0 && anchor >= here {
        StackDepth::Consumed(anchor - here)
    } else if anchor == 0 {
        StackDepth::AnchorNeverRan
    } else {
        StackDepth::AnchorBelowSeam
    }
}

/// Why a one-shot arming seam refused, or that it may proceed.
#[derive(Clone, Copy, Debug, PartialEq, Eq, Structural)]
pub enum SeamGate {
    /// The seam already ran this boot.
    AlreadyArmed,
    /// Headless boot: no scanout.
    NoPanel,
    /// The compositor stage could not be reserved.
    StageUnreserved,
    /// The preconditions hold: proceed.
    Proceed,
}

/// The common gate of the desktop arming seams: each runs once per boot, needs a live panel
/// and needs a reserved compositor stage.
pub open spec fn seam_gate_spec(entered_before: bool, panel_ready: bool, staged: usize) -> SeamGate {
    if entered_before {
        SeamGate::AlreadyArmed
    } else if !panel_ready {
        SeamGate::NoPanel
    } else if staged == 0 {
        SeamGate::StageUnreserved
    } else {
        SeamGate::Proceed
    }
}

/// Checks the common preconditions of a desktop arming seam.
pub fn seam_gate(entered_before: bool, panel_ready: bool, staged: usize) -> (r: SeamGate)
    ensures
        r == seam_gate_spec(entered_before, panel_ready, staged),
{
    if entered_before {
        SeamGate::AlreadyArmed
    } else if !panel_ready {
        SeamGate::NoPanel
    } else if staged == 0 {
        SeamGate::StageUnreserved
    } else {
        SeamGate::Proceed
    }
}

/// The desktop seam's decision after the common gate.
#[derive(Clone, Copy, Debug, PartialEq, Eq, Structural)]
pub enum DeskSeam {
    /// A common precondition failed.
    Refused(SeamGate),
    /// The window table already holds rows; the desktop clear would paint over them.
    TableNotEmpty { live: usize },
    /// Click routing has not landed and/or the full cascade is blocked.
    Held { click_unlanded: bool, cascade_held: bool },
    /// Activate the desktop.
    Activate,
}

/// Decides the Orin desktop seam.
pub fn desk_arm_decide(entered_before: bool, panel_ready: bool, staged: usize, live: usize, click_routed: bool, cascade_ok: bool) -> (r: DeskSeam)
    ensures
        seam_gate_spec(entered_before, panel_ready, staged) != SeamGate::Proceed
            ==> r == DeskSeam::Refused(seam_gate_spec(entered_before, panel_ready, staged)),
        seam_gate_spec(entered_before, panel_ready, staged) == SeamGate::Proceed && live != 0
            ==> r == (DeskSeam::TableNotEmpty { live }),
        seam_gate_spec(entered_before, panel_ready, staged) == SeamGate::Proceed && live == 0 && !(click_routed && cascade_ok)
            ==> r == (DeskSeam::Held { click_unlanded: !click_routed, cascade_held: !cascade_ok }),
        seam_gate_spec(entered_before, panel_ready, staged) == SeamGate::Proceed && live == 0 && click_routed && cascade_ok
            ==> r == DeskSeam::Activate,
{
    let g = seam_gate(entered_before, panel_ready, staged);
    match g {
        SeamGate::Proceed => {},
        _ => return DeskSeam::Refused(g),
    }
    if live != 0 {
        return DeskSeam::TableNotEmpty { live };
    }
    if !(click_routed && cascade_ok) {
        return DeskSeam::Held { click_unlanded: !click_routed, cascade_held: !cascade_ok };
    }
    DeskSeam::Activate
}

/// The reason label of a held desktop seam.
pub open spec fn held_reason_spec(click_unlanded: bool, cascade_held: bool) -> Seq<char> {
    if click_unlanded && cascade_held {
        "rung3-unlanded+stop-line-5.2"@
    } else if click_unlanded {
        "rung3-unlanded"@
    } else {
        "stop-line-5.2"@
    }
}

/// Names why a desktop seam is held.
pub fn held_reason(click_unlanded: bool, cascade_held: bool) -> (r: &'static str)
    ensures
        r@ == held_reason_spec(click_unlanded, cascade_held),
{
    if click_unlanded && cascade_held {
        "rung3-unlanded+stop-line-5.2"
    } else if click_unlanded {
        "rung3-unlanded"
    } else {
        "stop-line-5.2"
    }
}

/// The verdict of a desktop activation, read against the console route afterwards.
#[derive(Clone, Copy, Debug, PartialEq, Eq, Structural)]
pub enum Activation {
    /// Activated and the console is routed into its window.
    Routed,
    /// Not activated and not routed.
    Unrouted,
    /// The two disagree.
    Incoherent,
}

/// Reads an activation against the console route; the seam reports success only for
/// `Routed`.
pub fn activation_verdict(activated: bool, routed: bool) -> (r: (Activation, bool))
    ensures
        activated && routed ==> r.0 == Activation::Routed,
        !activated && !routed ==> r.0 == Activation::Unrouted,
        activated != routed ==> r.0 == Activation::Incoherent,
        r.1 == (activated && routed),
{
    let v = if activated && routed {
        Activation::Routed
    } else if !activated && !routed {
        Activation::Unrouted
    } else {
        Activation::Incoherent
    };
    (v, activated && routed)
}

/// The menu-bar seam's decision after the common gate.
#[derive(Clone, Copy, Debug, PartialEq, Eq, Structural)]
pub enum FurnSeam {
    /// A common precondition failed.
    Refused(SeamGate),
    /// The panel is below the bar's size floor.
    BelowBarFloor,
    /// Enable the bar and composite.
    Enable,
}

/// Decides the menu-bar seam; `bar_fits` is whether the bar's strip rectangle exists on
/// this panel.
pub fn furn_arm_decide(entered_before: bool, panel_ready: bool, staged: usize, bar_fits: bool) -> (r: FurnSeam)
    ensures
        seam_gate_spec(entered_before, panel_ready, staged) != SeamGate::Proceed
            ==> r == FurnSeam::Refused(seam_gate_spec(entered_before, panel_ready, staged)),
        seam_gate_spec(entered_before, panel_ready, staged) == SeamGate::Proceed && !bar_fits ==> r == FurnSeam::BelowBarFloor,
        seam_gate_spec(entered_before, panel_ready, staged) == SeamGate::Proceed && bar_fits ==> r == FurnSeam::Enable,
{
    let g = seam_gate(entered_before, panel_ready, staged);
    match g {
        SeamGate::Proceed => {},
        _ => return FurnSeam::Refused(g),
    }
    if !bar_fits { FurnSeam::BelowBarFloor } else { FurnSeam::Enable }
}

/// After the first composite: whether to composite once more (the bar is enabled but
/// did not get its pixels).
pub fn furn_retry(enabled: bool, owns_pixels: bool) -> (r: bool)
    ensures
        r == (enabled && !owns_pixels),
{
    enabled && !owns_pixels
}

/// The end of the menu-bar seam: armed when the bar owns its pixels; otherwise the
/// enable is rolled back to what it was before, so no dead band is left on the panel.
/// Returns whether the seam armed and the bar's enable state afterwards.
pub fn furn_settle(painted: bool, bar_was: bool) -> (r: (bool, bool))
    ensures
        r == furn_settle_spec(painted, bar_was),
        painted ==> r == (true, true),
        !painted ==> r == (false, bar_was),
{
    if painted { (true, true) } else { (false, bar_was) }
}

/// Why the Orin render pass declines to mint a shell window.
#[derive(Clone, Copy, Debug, PartialEq, Eq, Structural)]
pub enum RenderDecline {
    /// The live console already has its own window.
    ConsoleAlreadyWindowed,
    /// Nothing on this image would paint a shell window.
    NoPainter,
}

/// The Orin render pass's one-time decline once the desktop is armed (it never mints a
/// shell window itself): `None` when it has nothing to decide this pass.
pub fn render_decline(has_window: bool, declined: bool, armed: bool, console_routed: bool) -> (r: Option<RenderDecline>)
    ensures
        !has_window && !declined && armed && console_routed ==> r == Some(RenderDecline::ConsoleAlreadyWindowed),
        !has_window && !declined && armed && !console_routed ==> r == Some(RenderDecline::NoPainter),
        !(!has_window && !declined && armed) ==> r is None,
{
    if !has_window && !declined && armed {
        if console_routed {
            Some(RenderDecline::ConsoleAlreadyWindowed)
        } else {
            Some(RenderDecline::NoPainter)
        }
    } else {
        None
    }
}

/// A failed menu-bar seam leaves the bar's enable exactly as it found it.
pub proof fn lemma_furn_rollback(bar_was: bool)
    ensures
        !furn_settle_spec(false, bar_was).0,
        furn_settle_spec(false, bar_was).1 == bar_was,
{
}

/// The settle step, as a value.
pub open spec fn furn_settle_spec(painted: bool, bar_was: bool) -> (bool, bool) {
    if painted { (true, true) } else { (false, bar_was) }
}

/// A desktop seam activates only with an empty window table, click routing landed and
/// the cascade cleared, and never twice in one boot.
pub proof fn lemma_desk_activates_only_when_safe(entered_before: bool, panel_ready: bool, staged: usize, live: usize, click_routed: bool, cascade_ok: bool)
    ensures
        seam_gate_spec(entered_before, panel_ready, staged) == SeamGate::Proceed && live == 0 && click_routed && cascade_ok
            <==> (!entered_before && panel_ready && staged != 0 && live == 0 && click_routed && cascade_ok),
{
}

/// Where the supervisor-state console pump sends one queued event.
#[derive(Clone, Copy, Debug, PartialEq, Eq, Structural)]
pub enum SupRoute {
    /// Push the key into the key seam for the dispatcher task.
    KeySeam(u8),
    /// Add the report to this pass's pointer batch.
    Pointer,
    /// Log the button report (and hand it to the click route where built in).
    ButtonLog(u8),
    /// Nothing to do.
    Ignore,
}

/// Routes one queued event of the supervisor-state console pump: keys to the key seam,
/// relative and absolute pointer reports to the pass's batch, buttons to the log,
/// anything else nowhere.
pub fn supstate_route(ev: Event) -> (r: SupRoute)
    ensures
        r == (match ev {
            Event::Key(c) => SupRoute::KeySeam(c),
            Event::Mouse { .. } => SupRoute::Pointer,
            Event::MouseAbsolute { .. } => SupRoute::Pointer,
            Event::Button(m) => SupRoute::ButtonLog(m),
            _ => SupRoute::Ignore,
        }),
{
    match ev {
        Event::Key(c) => SupRoute::KeySeam(c),
        Event::Mouse { .. } => SupRoute::Pointer,
        Event::MouseAbsolute { .. } => SupRoute::Pointer,
        Event::Button(m) => SupRoute::ButtonLog(m),
        _ => SupRoute::Ignore,
    }
}

} // verus!
