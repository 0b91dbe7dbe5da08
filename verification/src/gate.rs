//! Throttles for the serial witness lines: wall-clock gates, pass-counter gates and
//! change-triggered gates.

use vstd::prelude::*;

verus! {

/// Whether a wall-clock throttle fires at `now`, given the stamp `last` of the previous
/// line (0 = never fired) and the minimum spacing `period`.
pub open spec fn clock_gate_fires(now: u64, last: u64, period: u64) -> bool {
    now.wrapping_sub(last) >= period || last == 0
}

/// The stamp a fired throttle stores: `now`, but never 0, which is reserved for
/// "never fired".
pub open spec fn clock_gate_stamp(now: u64) -> u64 {
    if now == 0 { 1 } else { now }
}

/// A wall-clock throttle: returns the new stamp when the line is due, `None` when it
/// must stay silent (the stamp is then left as it was).
pub fn clock_gate(now: u64, last: u64, period: u64) -> (r: Option<u64>)
    ensures
        r.is_some() == clock_gate_fires(now, last, period),
        r matches Some(s) ==> s == clock_gate_stamp(now),
{
    if now.wrapping_sub(last) >= period || last == 0 {
        Some(if now > 1 { now } else { 1 })
    } else {
        None
    }
}

/// A plain period test on a wrapping clock: due once `period` has elapsed since the
/// stamp `last`, with `now` as the new stamp; unlike [`clock_gate`] a zero stamp has no
/// special meaning.
pub fn period_gate(now: u64, last: u64, period: u64) -> (r: Option<u64>)
    ensures
        now.wrapping_sub(last) >= period ==> r == Some(now),
        now.wrapping_sub(last) < period ==> r is None,
{
    if now.wrapping_sub(last) >= period { Some(now) } else { None }
}

/// A pass-counter throttle: the pass numbered `pass` (counted from 0) prints when it is a
/// multiple of `every`. Used where the wall clock may be stuck at 0.
pub fn pass_gate(pass: u64, every: u64) -> (r: bool)
    requires
        every > 0,
    ensures
        r == (pass % every == 0),
{
    pass % every == 0
}

/// The single value the edge-triggered census lines compare between passes: the
/// wrapping sum of their monotone counters.
pub open spec fn census_fold_spec(a: u64, b: u64, c: u64, d: u64, e: u64) -> u64 {
    a.wrapping_add(b).wrapping_add(c).wrapping_add(d).wrapping_add(e)
}

/// Folds five monotone counters into the one value an edge-triggered census compares.
pub fn census_fold(a: u64, b: u64, c: u64, d: u64, e: u64) -> (r: u64)
    ensures
        r == census_fold_spec(a, b, c, d, e),
{
    a.wrapping_add(b).wrapping_add(c).wrapping_add(d).wrapping_add(e)
}

/// An edge-triggered census: it prints exactly when the folded value moved since the
/// last print, and the value it stores is always the current one.
pub fn change_gate(current: u64, last: u64) -> (r: (bool, u64))
    ensures
        r.0 == (current != last),
        r.1 == current,
{
    (current != last, current)
}

/// A one-shot latch: the witness it guards fires on the first request of the boot and
/// never again. Returns whether to fire and the latch's new value.
pub fn latch_once(latched: bool) -> (r: (bool, bool))
    ensures
        r == latch_once_spec(latched),
{
    (!latched, true)
}

/// A throttle that lets urgent lines through: button edges always print, motion prints
/// through the wall-clock throttle. Returns whether to print and the new stamp.
pub fn urgent_or_throttled(urgent: bool, now: u64, last: u64, period: u64) -> (r: (bool, u64))
    ensures
        urgent ==> r == (true, last),
        !urgent ==> r == (clock_gate_fires(now, last, period),
            if clock_gate_fires(now, last, period) { clock_gate_stamp(now) } else { last }),
{
    if urgent {
        return (true, last);
    }
    match clock_gate(now, last, period) {
        Some(s) => (true, s),
        None => (false, last),
    }
}

/// The event-queue census: checked on every `every`-th pass, printed only when the
/// folded counters moved since the value last stored. Returns whether to print and the
/// stored fold afterwards.
pub fn pass_and_change_gate(pass: u64, every: u64, fold: u64, last_fold: u64) -> (r: (bool, u64))
    requires
        every > 0,
    ensures
        pass % every != 0 ==> r == (false, last_fold),
        pass % every == 0 ==> r == (fold != last_fold, fold),
{
    if pass % every != 0 {
        (false, last_fold)
    } else {
        (fold != last_fold, fold)
    }
}

/// The wheel census's change detector: the wrapping sum of its three monotone counters.
pub fn wheel_total(decoded: u32, routed: u32, nofocus: u32) -> (r: u32)
    ensures
        r == decoded.wrapping_add(routed).wrapping_add(nofocus),
{
    decoded.wrapping_add(routed).wrapping_add(nofocus)
}

/// A latch fires exactly once however often it is asked.
pub proof fn lemma_latch_fires_once()
    ensures
        !latch_once_spec(true).0,
        latch_once_spec(false).0,
        latch_once_spec(latch_once_spec(false).1).0 == false,
{
}

/// The latch, as a value.
pub open spec fn latch_once_spec(latched: bool) -> (bool, bool) {
    (!latched, true)
}

/// A fired clock throttle never stores the "never fired" stamp.
pub proof fn lemma_stamp_nonzero(now: u64)
    ensures
        clock_gate_stamp(now) != 0,
{
}

/// A throttle with a positive period that has just fired stays silent for a second
/// request at the same instant: a burst of witness requests produces one line.
pub proof fn lemma_burst_prints_once(now: u64, last: u64, period: u64)
    requires
        period > 0,
        clock_gate_fires(now, last, period),
    ensures
        !clock_gate_fires(now, clock_gate_stamp(now), period) || now == 0,
{
}

/// A throttle that has never fired always fires, whatever the clock reads.
pub proof fn lemma_first_line_always_prints(now: u64, period: u64)
    ensures
        clock_gate_fires(now, 0, period),
{
}

/// A throttle stays silent strictly inside its period after a line stamped with a
/// nonzero clock reading, and fires again once the period has elapsed.
pub proof fn lemma_period_respected(stamp: u64, later: u64, period: u64)
    requires
        stamp != 0,
        stamp <= later,
    ensures
        clock_gate_fires(later, stamp, period) == (later - stamp >= period),
{
}

} // verus!
