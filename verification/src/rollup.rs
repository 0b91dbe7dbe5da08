//! The USB debug event view on the x86 desktop drains: key, button and absolute-motion
//! reports print one line each, the first relative-motion reports of the boot print
//! verbatim, and after that relative motion folds into a rollup line emitted at most
//! once per period and always ahead of the next non-motion line.

use vstd::prelude::*;
use crate::event::Event;

verus! {

/// Relative reports printed verbatim before folding starts.
pub const USBDBG_PTR_VERBATIM: u32 = 16;

/// Minimum spacing of rollup lines, in milliseconds.
pub const USBDBG_PTR_ROLLUP_MS: u64 = 250;

/// The pending rollup and the verbatim budget spent so far.
#[derive(Clone, Copy, Debug, PartialEq, Eq, Structural)]
pub struct PtrRollup {
    /// Relative reports printed verbatim so far.
    pub verbatim_seen: u32,
    /// Relative reports folded into the pending rollup (0 = nothing pending).
    pub n: u32,
    /// Summed horizontal travel of the pending rollup.
    pub dx: i64,
    /// Summed vertical travel of the pending rollup.
    pub dy: i64,
    /// Clock reading of the first report folded into the pending rollup.
    pub first_ms: u64,
}

/// One line of the debug view.
#[derive(Clone, Copy, Debug, PartialEq, Eq, Structural)]
pub enum DebugLine {
    /// `KEY <code> '<shown>'`: the key code and the byte shown for it ('.' when not
    /// printable).
    Key { code: u8, shown: u8 },
    /// `MOUSE relative dx= dy=`: a verbatim relative report.
    MouseRelative { dx: i32, dy: i32 },
    /// `MOUSE rel n= dx= dy= span=`: a rollup of `n` relative reports.
    MouseRollup { n: u32, sum_x: i64, sum_y: i64, span: u64 },
    /// `MOUSE absolute x= y=`.
    MouseAbsolute { x: i32, y: i32 },
    /// `BUTTON mask=`.
    Button { mask: u8 },
}

/// The empty rollup at boot.
pub open spec fn rollup_init() -> PtrRollup {
    PtrRollup { verbatim_seen: 0, n: 0, dx: 0, dy: 0, first_ms: 0 }
}

/// The state after a flush.
pub open spec fn flushed(s: PtrRollup) -> PtrRollup {
    if s.n == 0 { s } else { PtrRollup { n: 0, dx: 0, dy: 0, ..s } }
}

/// The line a flush emits, if any.
pub open spec fn flush_lines(s: PtrRollup, now: u64) -> Seq<DebugLine> {
    if s.n == 0 {
        Seq::empty()
    } else {
        seq![DebugLine::MouseRollup { n: s.n, sum_x: s.dx, sum_y: s.dy, span: now.wrapping_sub(s.first_ms) }]
    }
}

/// The byte the key line shows for a key code.
pub open spec fn shown_byte(c: u8) -> u8 {
    if 32 <= c < 127 { c } else { 46 }
}

/// The rollup after folding one relative report in.
pub open spec fn folded(s: PtrRollup, x: i32, y: i32, now: u64) -> PtrRollup {
    PtrRollup {
        n: s.n.wrapping_add(1),
        dx: s.dx.wrapping_add(x as i64),
        dy: s.dy.wrapping_add(y as i64),
        first_ms: if s.n == 0 { now } else { s.first_ms },
        ..s
    }
}

/// The state and lines after one raw report seen at clock reading `now`.
pub open spec fn print_spec(s: PtrRollup, ev: Event, now: u64) -> (PtrRollup, Seq<DebugLine>) {
    match ev {
        Event::Key(c) => (flushed(s), flush_lines(s, now).push(DebugLine::Key { code: c, shown: shown_byte(c) })),
        Event::Mouse { x, y } => if s.verbatim_seen < USBDBG_PTR_VERBATIM {
            (PtrRollup { verbatim_seen: (s.verbatim_seen + 1) as u32, ..s }, seq![DebugLine::MouseRelative { dx: x, dy: y }])
        } else {
            let f = folded(s, x, y, now);
            if now.wrapping_sub(f.first_ms) >= USBDBG_PTR_ROLLUP_MS {
                (flushed(f), flush_lines(f, now))
            } else {
                (f, Seq::empty())
            }
        },
        Event::MouseAbsolute { x, y } => (flushed(s), flush_lines(s, now).push(DebugLine::MouseAbsolute { x, y })),
        Event::Button(mask) => (flushed(s), flush_lines(s, now).push(DebugLine::Button { mask })),
        Event::Nothing => (s, Seq::empty()),
        _ => (flushed(s), flush_lines(s, now)),
    }
}

/// Emits the pending rollup, if there is one, and resets it.
pub fn usbdebug_ptr_rollup_flush(s: &mut PtrRollup, now: u64, out: &mut Vec<DebugLine>)
    ensures
        *final(s) == flushed(*old(s)),
        final(out)@ == old(out)@ + flush_lines(*old(s), now),
{
    if s.n == 0 {
        assert(old(out)@ + Seq::<DebugLine>::empty() =~= old(out)@);
        return;
    }
    out.push(DebugLine::MouseRollup { n: s.n, sum_x: s.dx, sum_y: s.dy, span: now.wrapping_sub(s.first_ms) });
    s.n = 0;
    s.dx = 0;
    s.dy = 0;
}

/// Shows one raw report to the debug view (before it is routed; nothing is consumed),
/// appending the lines it produces to `out`.
pub fn usbdebug_event_print(s: &mut PtrRollup, ev: Event, now: u64, out: &mut Vec<DebugLine>)
    ensures
        *final(s) == print_spec(*old(s), ev, now).0,
        final(out)@ == old(out)@ + print_spec(*old(s), ev, now).1,
{
    match ev {
        Event::Key(c) => {
            usbdebug_ptr_rollup_flush(s, now, out);
            let shown = if c >= 32 && c < 127 { c } else { 46u8 };
            out.push(DebugLine::Key { code: c, shown });
            assert(final(out)@ =~= old(out)@ + print_spec(*old(s), ev, now).1);
        },
        Event::Mouse { x, y } => {
            if s.verbatim_seen < USBDBG_PTR_VERBATIM {
                s.verbatim_seen = s.verbatim_seen + 1;
                out.push(DebugLine::MouseRelative { dx: x, dy: y });
                assert(final(out)@ =~= old(out)@ + print_spec(*old(s), ev, now).1);
                return;
            }
            if s.n == 0 {
                s.first_ms = now;
            }
            s.n = s.n.wrapping_add(1);
            s.dx = s.dx.wrapping_add(x as i64);
            s.dy = s.dy.wrapping_add(y as i64);
            if now.wrapping_sub(s.first_ms) >= USBDBG_PTR_ROLLUP_MS {
                usbdebug_ptr_rollup_flush(s, now, out);
            } else {
                assert(final(out)@ =~= old(out)@ + print_spec(*old(s), ev, now).1);
            }
        },
        Event::MouseAbsolute { x, y } => {
            usbdebug_ptr_rollup_flush(s, now, out);
            out.push(DebugLine::MouseAbsolute { x, y });
            assert(final(out)@ =~= old(out)@ + print_spec(*old(s), ev, now).1);
        },
        Event::Button(mask) => {
            usbdebug_ptr_rollup_flush(s, now, out);
            out.push(DebugLine::Button { mask });
            assert(final(out)@ =~= old(out)@ + print_spec(*old(s), ev, now).1);
        },
        Event::Nothing => {
            assert(final(out)@ =~= old(out)@ + print_spec(*old(s), ev, now).1);
        },
        _ => {
            usbdebug_ptr_rollup_flush(s, now, out);
        },
    }
}

/// The horizontal travel carried by a sequence of debug lines.
pub open spec fn lines_dx(lines: Seq<DebugLine>) -> int
    decreases lines.len(),
{
    if lines.len() == 0 {
        0
    } else {
        lines_dx(lines.drop_last()) + match lines.last() {
            DebugLine::MouseRelative { dx, dy } => dx as int,
            DebugLine::MouseRollup { n, sum_x, sum_y, span } => sum_x as int,
            _ => 0,
        }
    }
}

/// The horizontal travel a raw report contributes.
pub open spec fn event_dx(ev: Event) -> int {
    match ev {
        Event::Mouse { x, y } => x as int,
        _ => 0,
    }
}

/// Pointer travel is conserved: what a report adds is either printed now or still
/// pending in the rollup (as long as the pending sum does not wrap).
pub proof fn lemma_travel_conserved(s: PtrRollup, ev: Event, now: u64)
    requires
        i64::MIN <= s.dx + event_dx(ev) <= i64::MAX,
    ensures
        lines_dx(print_spec(s, ev, now).1) + print_spec(s, ev, now).0.dx == s.dx + event_dx(ev),
{
    let out = print_spec(s, ev, now).1;
    reveal_with_fuel(lines_dx, 3);
    if s.n != 0 {
        assert(flush_lines(s, now).drop_last() =~= Seq::<DebugLine>::empty());
    }
    match ev {
        Event::Key(c) => {
            assert(out.drop_last() =~= flush_lines(s, now));
        },
        Event::MouseAbsolute { x, y } => {
            assert(out.drop_last() =~= flush_lines(s, now));
        },
        Event::Button(m) => {
            assert(out.drop_last() =~= flush_lines(s, now));
        },
        Event::Mouse { x, y } => {
            if s.verbatim_seen >= USBDBG_PTR_VERBATIM {
                let f = folded(s, x, y, now);
                if f.n != 0 {
                    assert(flush_lines(f, now).drop_last() =~= Seq::<DebugLine>::empty());
                }
            } else {
                assert(out.drop_last() =~= Seq::<DebugLine>::empty());
            }
        },
        _ => {},
    }
}

/// The rollup stays chronological: a key, button or absolute-motion line is always
/// preceded by the pending rollup, and nothing is left pending after it.
pub proof fn lemma_rollup_precedes_edge(s: PtrRollup, ev: Event, now: u64)
    requires
        s.n != 0,
        ev is Key || ev is Button || ev is MouseAbsolute,
    ensures
        print_spec(s, ev, now).1.len() == 2,
        print_spec(s, ev, now).1[0] == (DebugLine::MouseRollup { n: s.n, sum_x: s.dx, sum_y: s.dy, span: now.wrapping_sub(s.first_ms) }),
        print_spec(s, ev, now).0.n == 0,
{
}

/// The verbatim prologue is bounded: the budget never exceeds its limit, and once spent
/// no relative report is printed verbatim again.
pub proof fn lemma_verbatim_bounded(s: PtrRollup, ev: Event, now: u64)
    requires
        s.verbatim_seen <= USBDBG_PTR_VERBATIM,
    ensures
        print_spec(s, ev, now).0.verbatim_seen <= USBDBG_PTR_VERBATIM,
        s.verbatim_seen == USBDBG_PTR_VERBATIM ==> forall|i: int| 0 <= i < print_spec(s, ev, now).1.len()
            ==> !(#[trigger] print_spec(s, ev, now).1[i] is MouseRelative),
{
}

/// The end-of-queue sentinel never flushes, so an idle poll loop cannot turn the
/// rollup into a per-frame line.
pub proof fn lemma_sentinel_is_silent(s: PtrRollup, now: u64)
    ensures
        print_spec(s, Event::Nothing, now) == (s, Seq::<DebugLine>::empty()),
{
}

/// Every report other than the end-of-queue sentinel and a relative report flushes the
/// pending rollup first: the rollup's line (when one is pending) is the first line out,
/// nothing stays pending afterwards, and the verbatim budget is untouched.
pub proof fn lemma_non_motion_flushes(s: PtrRollup, ev: Event, now: u64)
    requires
        !(ev is Nothing),
        !(ev is Mouse),
    ensures
        print_spec(s, ev, now).0.n == 0,
        print_spec(s, ev, now).0.dx == if s.n == 0 { s.dx } else { 0 },
        print_spec(s, ev, now).0.dy == if s.n == 0 { s.dy } else { 0 },
        print_spec(s, ev, now).0.verbatim_seen == s.verbatim_seen,
        s.n != 0 ==> print_spec(s, ev, now).1.len() >= 1 && print_spec(s, ev, now).1[0]
            == (DebugLine::MouseRollup { n: s.n, sum_x: s.dx, sum_y: s.dy, span: now.wrapping_sub(s.first_ms) }),
{
}

/// A report with nothing of its own to print (a key release, a wheel delta, the
/// heartbeat, an unclassified report) emits exactly the pending rollup's line, if any,
/// and leaves nothing pending; with nothing pending it emits nothing and changes nothing.
pub proof fn lemma_silent_report_emits_only_rollup(s: PtrRollup, ev: Event, now: u64)
    requires
        ev is KeyUp || ev is Wheel || ev is Timer || ev is Unknown,
    ensures
        s.n != 0 ==> print_spec(s, ev, now).1
            == seq![DebugLine::MouseRollup { n: s.n, sum_x: s.dx, sum_y: s.dy, span: now.wrapping_sub(s.first_ms) }],
        s.n != 0 ==> print_spec(s, ev, now).0 == (PtrRollup { n: 0, dx: 0, dy: 0, ..s }),
        s.n == 0 ==> print_spec(s, ev, now) == (s, Seq::<DebugLine>::empty()),
{
}

} // verus!
