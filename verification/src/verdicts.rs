//! The pass/fail verdicts the boot-time self-checks print.

use vstd::prelude::*;

verus! {

/// The router check passes when two events (a key and a pointer move) landed in the
/// focused ring and the render channel saw none of them.
pub fn router_check_pass(routed: usize, sent_before: u64, sent_after: u64) -> (r: bool)
    ensures
        r == (routed == 2 && sent_before == sent_after),
{
    routed == 2 && sent_before == sent_after
}

/// The serial-storm leg: an inbox of capacity `cap` offered `cap + over` bytes with no
/// consumer accepts exactly `cap`, refuses and counts exactly `over`, peaks at `cap`,
/// and posts nothing to the render channel.
pub fn storm_bounded(took: usize, refused: usize, dropped: u64, high: u64, gui_delta: u64, cap: usize, over: usize) -> (r: bool)
    ensures
        r == (took == cap && refused == over && dropped == over && high == cap && gui_delta == 0),
{
    took == cap && refused == over && dropped == over as u64 && high == cap as u64 && gui_delta == 0
}

/// How far the serial check advances the inbox's head so that a run of `run` bytes then
/// straddles the ring's end (it stops 8 bytes short of `cap`).
pub fn wrap_advance(cap: usize, run: usize) -> (r: usize)
    requires
        8 + run <= cap,
    ensures
        r == cap - 8 - run,
{
    cap - 8 - run
}

/// The panel-lock check: with the lock held both geometry reads come back clamped to 0
/// and are counted as refusals (at least two more); once released, a read returns the
/// real width and is counted as a completed read.
pub fn panel_lock_check(held_w: i32, held_h: i32, refused_before: u32, refused_after: u32, free_w: i32, real_w: i32, read_before: u32, read_after: u32) -> (r: (bool, bool))
    ensures
        r.0 == (held_w == 0 && held_h == 0 && refused_after >= refused_before + 2),
        r.1 == (free_w == real_w && read_after > read_before),
{
    let declined = held_w == 0 && held_h == 0 && refused_after as u64 >= refused_before as u64 + 2;
    let recovered = free_w == real_w && read_after > read_before;
    (declined, recovered)
}

} // verus!
