//! The x86 input service's forwarding policy into the render task's channel.
//!
//! The service drains the kernel event queue and OFFERS each event to a bounded channel
//! that may refuse it (the render core may be slow or dead). Refusals are handled by
//! class: relative motion folds into one owed delta, the heartbeat is shed, and every
//! other event must survive verbatim and in order, so it is held and the drain stops
//! until it has been delivered. Motion owed ahead of a held event is always delivered
//! first, so no event ever overtakes travel that preceded it.
//!
//! The channel's answers come from another core; each function here takes the answer
//! to one offer and says what the service does next.

use vstd::prelude::*;
use crate::event::Event;
use crate::sat::{sat_add_i32, sat_add_i32_spec};

verus! {

/// Period of the heartbeat the service posts to the render task, in milliseconds.
pub const X86_GUI_PULSE_MS: u64 = 250;

/// What the service still owes the channel.
#[derive(Clone, Copy, Debug)]
pub struct Owed {
    /// Relative motion refused by the channel, folded into one delta.
    pub motion: Option<(i32, i32)>,
    /// One must-survive event waiting for delivery.
    pub event: Option<Event>,
}

/// Nothing owed: the state at service start.
pub open spec fn owed_none() -> Owed {
    Owed { motion: None, event: None }
}

/// What the service does with one event taken off the kernel queue.
#[derive(Clone, Copy, Debug, PartialEq, Eq, Structural)]
pub enum DrainStep {
    /// Offer this event to the channel now.
    Offer(Event),
    /// The motion was added to the owed delta.
    Fold,
    /// The event is held behind owed motion; the drain stops.
    Hold,
    /// The heartbeat was shed (loss-tolerant filler).
    Shed,
}

/// The owed delta after folding `(x, y)` into `(ax, ay)`.
pub open spec fn fold_delta(acc: (i32, i32), x: i32, y: i32) -> (i32, i32) {
    (sat_add_i32_spec(acc.0 as int, x as int), sat_add_i32_spec(acc.1 as int, y as int))
}

/// The drain decision for one queued event, and the owed state after it (before any
/// answer from the channel).
pub open spec fn drain_spec(s: Owed, ev: Event) -> (Owed, DrainStep) {
    match ev {
        Event::Mouse { x, y } => match s.motion {
            Some(acc) => (Owed { motion: Some(fold_delta(acc, x, y)), ..s }, DrainStep::Fold),
            None => (s, DrainStep::Offer(ev)),
        },
        Event::Timer => (s, DrainStep::Shed),
        _ => if s.motion is Some {
            (Owed { event: Some(ev), ..s }, DrainStep::Hold)
        } else {
            (s, DrainStep::Offer(ev))
        },
    }
}

/// Whether the drain may take another event off the queue: not while an event is held.
pub fn drain_open(s: &Owed) -> (r: bool)
    ensures
        r == (s.event is None),
{
    s.event.is_none()
}

/// Decides one event taken off the kernel queue.
pub fn drain_decide(s: &mut Owed, ev: Event) -> (r: DrainStep)
    requires
        old(s).event is None,
    ensures
        (*final(s), r) == drain_spec(*old(s), ev),
{
    match ev {
        Event::Mouse { x, y } => match s.motion {
            Some((ax, ay)) => {
                s.motion = Some((sat_add_i32(ax, x), sat_add_i32(ay, y)));
                DrainStep::Fold
            },
            None => DrainStep::Offer(ev),
        },
        Event::Timer => DrainStep::Shed,
        _ => {
            if s.motion.is_some() {
                s.event = Some(ev);
                DrainStep::Hold
            } else {
                DrainStep::Offer(ev)
            }
        },
    }
}

/// The owed state after the channel answered an offer of `ev` made by the drain.
pub open spec fn offer_answer_spec(s: Owed, ev: Event, accepted: bool) -> Owed {
    if accepted {
        s
    } else {
        match ev {
            Event::Mouse { x, y } => Owed { motion: Some((x, y)), ..s },
            _ => Owed { event: Some(ev), ..s },
        }
    }
}

/// Records the channel's answer to an offer the drain made: a refused motion becomes
/// the owed delta, any other refused event is held.
pub fn drain_answer(s: &mut Owed, ev: Event, accepted: bool)
    requires
        drain_spec(*old(s), ev).1 == DrainStep::Offer(ev),
    ensures
        *final(s) == offer_answer_spec(*old(s), ev, accepted),
{
    if !accepted {
        match ev {
            Event::Mouse { x, y } => {
                s.motion = Some((x, y));
            },
            _ => {
                s.event = Some(ev);
            },
        }
    }
}

/// What the service offers first when it retires its debts at the top of a pass:
/// owed motion before the held event, which it preceded.
pub open spec fn retire_next_spec(s: Owed) -> Option<Event> {
    match s.motion {
        Some((x, y)) => Some(Event::Mouse { x, y }),
        None => s.event,
    }
}

/// The next debt to offer.
pub fn retire_next(s: &Owed) -> (r: Option<Event>)
    ensures
        r == retire_next_spec(*s),
{
    match s.motion {
        Some((x, y)) => Some(Event::Mouse { x, y }),
        None => s.event,
    }
}

/// The owed state after the channel answered the offer of the next debt.
pub open spec fn retire_answer_spec(s: Owed, accepted: bool) -> Owed {
    if !accepted {
        s
    } else if s.motion is Some {
        Owed { motion: None, ..s }
    } else {
        Owed { event: None, ..s }
    }
}

/// Records the channel's answer to the offer of the next debt. A pass offers the owed
/// motion and, once that is delivered, the held event; a refusal ends the retiring.
pub fn retire_answer(s: &mut Owed, accepted: bool)
    requires
        retire_next_spec(*old(s)) is Some,
    ensures
        *final(s) == retire_answer_spec(*old(s), accepted),
{
    if accepted {
        if s.motion.is_some() {
            s.motion = None;
        } else {
            s.event = None;
        }
    }
}

/// What the heartbeat does this pass.
#[derive(Clone, Copy, Debug, PartialEq, Eq, Structural)]
pub enum Heartbeat {
    /// Not due yet.
    NotDue,
    /// Due, but shed because input is owed: filler never jumps the queue.
    Shed,
    /// Due: offer a heartbeat (shed if the channel refuses it).
    Offer,
}

/// The heartbeat decision and the new pulse stamp. While a full-screen app owns the
/// panel the stamp is re-based to `now` and nothing is posted.
pub fn heartbeat(s: &Owed, now: u64, pulse_ms: u64, app_active: bool) -> (r: (u64, Heartbeat))
    ensures
        app_active ==> r == (now, Heartbeat::NotDue),
        !app_active && now.wrapping_sub(pulse_ms) < X86_GUI_PULSE_MS ==> r == (pulse_ms, Heartbeat::NotDue),
        !app_active && now.wrapping_sub(pulse_ms) >= X86_GUI_PULSE_MS ==> r.0 == now
            && r.1 == (if s.motion is Some || s.event is Some { Heartbeat::Shed } else { Heartbeat::Offer }),
{
    if app_active {
        return (now, Heartbeat::NotDue);
    }
    if now.wrapping_sub(pulse_ms) >= X86_GUI_PULSE_MS {
        if s.motion.is_some() || s.event.is_some() {
            (now, Heartbeat::Shed)
        } else {
            (now, Heartbeat::Offer)
        }
    } else {
        (pulse_ms, Heartbeat::NotDue)
    }
}

/// The events still owed, in the order they will be delivered: the owed motion (as one
/// relative report) ahead of the held event.
pub open spec fn owed_stream(s: Owed) -> Seq<Event> {
    let m = match s.motion {
        Some((x, y)) => seq![Event::Mouse { x, y }],
        None => Seq::empty(),
    };
    match s.event {
        Some(e) => m.push(e),
        None => m,
    }
}

/// What a drain step put into the channel: the offered event, if it was offered and
/// accepted.
pub open spec fn drain_sent(s: Owed, ev: Event, accepted: bool) -> Seq<Event> {
    if drain_spec(s, ev).1 == DrainStep::Offer(ev) && accepted { seq![ev] } else { Seq::empty() }
}

/// The owed state after a drain step and the channel's answer (the answer only matters
/// for an offer).
pub open spec fn drain_after(s: Owed, ev: Event, accepted: bool) -> Owed {
    if drain_spec(s, ev).1 == DrainStep::Offer(ev) {
        offer_answer_spec(drain_spec(s, ev).0, ev, accepted)
    } else {
        drain_spec(s, ev).0
    }
}

/// The must-survive events of a stream, in order: everything but relative motion and the
/// heartbeat.
pub open spec fn must_survive(evs: Seq<Event>) -> Seq<Event>
    decreases evs.len(),
{
    if evs.len() == 0 {
        Seq::empty()
    } else {
        let r = must_survive(evs.drop_last());
        match evs.last() {
            Event::Mouse { .. } => r,
            Event::Timer => r,
            e => r.push(e),
        }
    }
}

/// The relative travel of a stream, segment by segment: the total before the first
/// must-survive event, between each two of them, and after the last. Heartbeats carry
/// nothing. Two streams with the same segments and the same must-survive events differ
/// only in how their motion runs are split into reports.
pub open spec fn seg_travel(evs: Seq<Event>) -> Seq<(int, int)>
    decreases evs.len(),
{
    if evs.len() == 0 {
        seq![(0int, 0int)]
    } else {
        let r = seg_travel(evs.drop_last());
        match evs.last() {
            Event::Mouse { x, y } => r.drop_last().push((r.last().0 + x, r.last().1 + y)),
            Event::Timer => r,
            _ => r.push((0int, 0int)),
        }
    }
}

/// The segments of `a + b`, from the segments of `a` and of `b`: the last segment of `a`
/// and the first of `b` are one run of motion.
pub open spec fn seg_join(a: Seq<(int, int)>, b: Seq<(int, int)>) -> Seq<(int, int)> {
    a.drop_last().push((a.last().0 + b[0].0, a.last().1 + b[0].1)) + b.drop_first()
}

/// The absolute value of an integer.
pub open spec fn abs_int(v: int) -> int {
    if v < 0 { -v } else { v }
}

/// The total motion a stream carries, per axis, counted without cancellation: the sum
/// of the absolute deltas of its relative reports.
pub open spec fn motion_mass(evs: Seq<Event>) -> (int, int)
    decreases evs.len(),
{
    if evs.len() == 0 {
        (0, 0)
    } else {
        let r = motion_mass(evs.drop_last());
        match evs.last() {
            Event::Mouse { x, y } => (r.0 + abs_int(x as int), r.1 + abs_int(y as int)),
            _ => r,
        }
    }
}

/// A stream has one more segment than must-survive events.
pub proof fn lemma_seg_len(evs: Seq<Event>)
    ensures
        seg_travel(evs).len() == must_survive(evs).len() + 1,
    decreases evs.len(),
{
    if evs.len() > 0 {
        lemma_seg_len(evs.drop_last());
    }
}

/// The segments of a concatenation join the segments of its parts.
pub proof fn lemma_seg_append(a: Seq<Event>, b: Seq<Event>)
    ensures
        seg_travel(a + b) == seg_join(seg_travel(a), seg_travel(b)),
    decreases b.len(),
{
    let sa = seg_travel(a);
    lemma_seg_len(a);
    if b.len() == 0 {
        assert(a + b =~= a);
        assert(seg_join(sa, seg_travel(b)) =~= sa);
    } else {
        let b1 = b.drop_last();
        let e = b.last();
        assert((a + b).drop_last() =~= a + b1);
        assert((a + b).last() == e);
        lemma_seg_append(a, b1);
        lemma_seg_len(b1);
        let sb1 = seg_travel(b1);
        let j = seg_join(sa, sb1);
        let sb = seg_travel(b);
        match e {
            Event::Mouse { x, y } => {
                if sb1.len() == 1 {
                    assert(sb =~= seq![(sb1[0].0 + x, sb1[0].1 + y)]);
                    assert(j =~= sa.drop_last().push((sa.last().0 + sb1[0].0, sa.last().1 + sb1[0].1)));
                    assert(seg_travel(a + b) =~= seg_join(sa, sb));
                } else {
                    assert(sb[0] == sb1[0]);
                    assert(sb.drop_first() =~= sb1.drop_first().drop_last().push((sb1.last().0 + x, sb1.last().1 + y)));
                    assert(j.last() == sb1.last());
                    assert(j.drop_last() =~= sa.drop_last().push((sa.last().0 + sb1[0].0, sa.last().1 + sb1[0].1))
                        + sb1.drop_first().drop_last());
                    assert(seg_travel(a + b) =~= seg_join(sa, sb));
                }
            },
            Event::Timer => {
                assert(sb == sb1);
            },
            _ => {
                assert(sb[0] == sb1[0]);
                assert(sb.drop_first() =~= sb1.drop_first().push((0int, 0int)));
                assert(seg_travel(a + b) =~= seg_join(sa, sb));
            },
        }
    }
}

/// Total motion adds up over a concatenation.
pub proof fn lemma_mass_append(a: Seq<Event>, b: Seq<Event>)
    ensures
        motion_mass(a + b).0 == motion_mass(a).0 + motion_mass(b).0,
        motion_mass(a + b).1 == motion_mass(a).1 + motion_mass(b).1,
        motion_mass(a).0 >= 0,
        motion_mass(a).1 >= 0,
    decreases a.len() + b.len(),
{
    if b.len() == 0 {
        assert(a + b =~= a);
        if a.len() > 0 {
            lemma_mass_append(a.drop_last(), b);
        }
    } else {
        assert((a + b).drop_last() =~= a + b.drop_last());
        assert((a + b).last() == b.last());
        lemma_mass_append(a, b.drop_last());
    }
}

/// Streams that agree in must-survive events and segments still agree after the same
/// prefix and suffix are put around them.
pub proof fn lemma_stream_congruent(p: Seq<Event>, x: Seq<Event>, y: Seq<Event>, t: Seq<Event>)
    requires
        must_survive(x) == must_survive(y),
        seg_travel(x) == seg_travel(y),
    ensures
        must_survive(p + x + t) == must_survive(p + y + t),
        seg_travel(p + x + t) == seg_travel(p + y + t),
{
    lemma_must_survive_append(p, x);
    lemma_must_survive_append(p, y);
    lemma_must_survive_append(p + x, t);
    lemma_must_survive_append(p + y, t);
    lemma_seg_append(p, x);
    lemma_seg_append(p, y);
    lemma_seg_append(p + x, t);
    lemma_seg_append(p + y, t);
}

/// No keystroke, click or other must-survive event is lost or reordered by a drain step,
/// and no relative travel is lost or moved across one while the owed delta does not
/// saturate: what the step sent followed by what is still owed has exactly the
/// must-survive events and the segments of what was owed before followed by the drained
/// event, and carries no more total motion.
pub proof fn lemma_drain_step_keeps_segments(s: Owed, ev: Event, accepted: bool)
    requires
        s.event is None,
        motion_mass(owed_stream(s).push(ev)).0 <= i32::MAX,
        motion_mass(owed_stream(s).push(ev)).1 <= i32::MAX,
    ensures
        must_survive(drain_sent(s, ev, accepted) + owed_stream(drain_after(s, ev, accepted)))
            == must_survive(owed_stream(s).push(ev)),
        seg_travel(drain_sent(s, ev, accepted) + owed_stream(drain_after(s, ev, accepted)))
            == seg_travel(owed_stream(s).push(ev)),
        motion_mass(drain_sent(s, ev, accepted) + owed_stream(drain_after(s, ev, accepted))).0
            <= motion_mass(owed_stream(s).push(ev)).0,
        motion_mass(drain_sent(s, ev, accepted) + owed_stream(drain_after(s, ev, accepted))).1
            <= motion_mass(owed_stream(s).push(ev)).1,
{
    lemma_drain_step_order_only(s, ev, accepted);
    reveal_with_fuel(seg_travel, 3);
    reveal_with_fuel(motion_mass, 3);
    let whole = drain_sent(s, ev, accepted) + owed_stream(drain_after(s, ev, accepted));
    let before = owed_stream(s).push(ev);
    match s.motion {
        Some((ax, ay)) => {
            assert(before =~= seq![Event::Mouse { x: ax, y: ay }, ev]);
            assert(before.drop_last() =~= seq![Event::Mouse { x: ax, y: ay }]);
            assert(before.drop_last().drop_last() =~= Seq::<Event>::empty());
            match ev {
                Event::Mouse { x, y } => {
                    assert(i32::MIN <= ax + x <= i32::MAX);
                    assert(i32::MIN <= ay + y <= i32::MAX);
                    let f = fold_delta((ax, ay), x, y);
                    assert(f.0 == ax + x && f.1 == ay + y);
                    assert(whole =~= seq![Event::Mouse { x: f.0, y: f.1 }]);
                    assert(whole.drop_last() =~= Seq::<Event>::empty());
                },
                Event::Timer => {
                    assert(whole =~= seq![Event::Mouse { x: ax, y: ay }]);
                    assert(whole.drop_last() =~= Seq::<Event>::empty());
                },
                _ => {
                    assert(whole =~= before);
                },
            }
        },
        None => {
            assert(before =~= seq![ev]);
            assert(before.drop_last() =~= Seq::<Event>::empty());
            match ev {
                Event::Timer => {
                    assert(whole =~= Seq::<Event>::empty());
                },
                _ => {
                    assert(whole =~= before);
                },
            }
        },
    }
}

/// `must_survive` distributes over concatenation.
pub proof fn lemma_must_survive_append(a: Seq<Event>, b: Seq<Event>)
    ensures
        must_survive(a + b) == must_survive(a) + must_survive(b),
    decreases b.len(),
{
    if b.len() == 0 {
        assert(a + b =~= a);
        assert(must_survive(a) + must_survive(b) =~= must_survive(a));
    } else {
        assert((a + b).drop_last() =~= a + b.drop_last());
        assert((a + b).last() == b.last());
        lemma_must_survive_append(a, b.drop_last());
        match b.last() {
            Event::Mouse { .. } => {},
            Event::Timer => {},
            e => {
                assert(must_survive(a) + must_survive(b.drop_last()).push(e) =~= (must_survive(a) + must_survive(b.drop_last())).push(e));
            },
        }
    }
}

/// A drain run: events are taken off the front of the queue while no event is held;
/// `answers` are the channel's answers to the offers made, in order. Returns the owed
/// state, what was sent, and how many queued events were taken.
pub open spec fn drain_run(s: Owed, evs: Seq<Event>, answers: Seq<bool>) -> (Owed, Seq<Event>, nat)
    decreases evs.len(),
{
    if evs.len() == 0 || s.event is Some {
        (s, Seq::empty(), 0)
    } else {
        let ev = evs[0];
        let offered = drain_spec(s, ev).1 == DrainStep::Offer(ev);
        let accepted = offered && answers.len() > 0 && answers[0];
        let s1 = drain_after(s, ev, accepted);
        let sent1 = drain_sent(s, ev, accepted);
        let rest_answers = if offered && answers.len() > 0 { answers.drop_first() } else { answers };
        let r = drain_run(s1, evs.drop_first(), rest_answers);
        (r.0, sent1 + r.1, r.2 + 1)
    }
}

/// Over a whole drain, however the channel answers, no must-survive event is lost or
/// reordered: what reached the channel, then what is still owed, then what is still
/// queued carries exactly the must-survive events that were owed and queued at the start,
/// in the same order.
pub proof fn lemma_drain_run_keeps_order(s: Owed, evs: Seq<Event>, answers: Seq<bool>)
    ensures
        drain_run(s, evs, answers).2 <= evs.len(),
        must_survive(drain_run(s, evs, answers).1 + owed_stream(drain_run(s, evs, answers).0)
            + evs.subrange(drain_run(s, evs, answers).2 as int, evs.len() as int))
            == must_survive(owed_stream(s) + evs),
    decreases evs.len(),
{
    let r = drain_run(s, evs, answers);
    if evs.len() == 0 || s.event is Some {
        assert(evs.subrange(0, evs.len() as int) =~= evs);
        assert(Seq::<Event>::empty() + owed_stream(s) =~= owed_stream(s));
    } else {
        let ev = evs[0];
        let offered = drain_spec(s, ev).1 == DrainStep::Offer(ev);
        let accepted = offered && answers.len() > 0 && answers[0];
        let s1 = drain_after(s, ev, accepted);
        let sent1 = drain_sent(s, ev, accepted);
        let rest_answers = if offered && answers.len() > 0 { answers.drop_first() } else { answers };
        let t = evs.drop_first();
        let r1 = drain_run(s1, t, rest_answers);
        lemma_drain_run_keeps_order(s1, t, rest_answers);
        let tail = t.subrange(r1.2 as int, t.len() as int);
        assert(evs.subrange(r.2 as int, evs.len() as int) =~= tail);
        lemma_drain_step_order_only(s, ev, accepted);
        lemma_order_chain(sent1, r1.1 + owed_stream(r1.0) + tail, owed_stream(s1), t, owed_stream(s).push(ev));
        assert(sent1 + r1.1 + owed_stream(r1.0) + tail =~= sent1 + (r1.1 + owed_stream(r1.0) + tail));
        assert(owed_stream(s).push(ev) + t =~= owed_stream(s) + evs);
    }
}

/// A drain step loses and reorders no must-survive event, with no range condition on the
/// owed delta.
pub proof fn lemma_drain_step_order_only(s: Owed, ev: Event, accepted: bool)
    requires
        s.event is None,
    ensures
        must_survive(drain_sent(s, ev, accepted) + owed_stream(drain_after(s, ev, accepted)))
            == must_survive(owed_stream(s).push(ev)),
{
    reveal_with_fuel(must_survive, 4);
    let sent = drain_sent(s, ev, accepted);
    let after = owed_stream(drain_after(s, ev, accepted));
    let before = owed_stream(s).push(ev);
    let whole = sent + after;
    match s.motion {
        Some((ax, ay)) => {
            assert(before =~= seq![Event::Mouse { x: ax, y: ay }, ev]);
            assert(before.drop_last() =~= seq![Event::Mouse { x: ax, y: ay }]);
            assert(before.drop_last().drop_last() =~= Seq::<Event>::empty());
            match ev {
                Event::Mouse { x, y } => {
                    let f = fold_delta((ax, ay), x, y);
                    assert(whole =~= seq![Event::Mouse { x: f.0, y: f.1 }]);
                    assert(whole.drop_last() =~= Seq::<Event>::empty());
                },
                Event::Timer => {
                    assert(whole =~= seq![Event::Mouse { x: ax, y: ay }]);
                    assert(whole.drop_last() =~= Seq::<Event>::empty());
                },
                _ => {
                    assert(whole =~= before);
                },
            }
        },
        None => {
            assert(before =~= seq![ev]);
            assert(before.drop_last() =~= Seq::<Event>::empty());
            match ev {
                Event::Timer => {
                    assert(whole =~= Seq::<Event>::empty());
                },
                _ => {
                    assert(whole =~= before);
                },
            }
        },
    }
}

/// Retiring debts delivers them verbatim and in order: what a retire step sent followed
/// by what is still owed is exactly what was owed.
pub proof fn lemma_retire_step_keeps_stream(s: Owed, accepted: bool)
    requires
        retire_next_spec(s) is Some,
    ensures
        (if accepted { seq![retire_next_spec(s)->0] } else { Seq::<Event>::empty() }) + owed_stream(retire_answer_spec(s, accepted))
            == owed_stream(s),
{
    let sent = if accepted { seq![retire_next_spec(s)->0] } else { Seq::<Event>::empty() };
    assert(sent + owed_stream(retire_answer_spec(s, accepted)) =~= owed_stream(s));
}

/// A must-survive event never overtakes owed motion: with motion owed it is held, and
/// the drain closes behind it.
pub proof fn lemma_no_overtaking(s: Owed, ev: Event)
    requires
        s.event is None,
        s.motion is Some,
        !(ev is Mouse),
        !(ev is Timer),
    ensures
        drain_spec(s, ev).1 == DrainStep::Hold,
        drain_spec(s, ev).0.event == Some(ev),
        drain_spec(s, ev).0.motion == s.motion,
{
}

/// A must-survive event is never dropped: it is either offered (and then held if
/// refused) or held; it is never folded or shed.
pub proof fn lemma_must_survive_is_kept(s: Owed, ev: Event, accepted: bool)
    requires
        s.event is None,
        !(ev is Mouse),
        !(ev is Timer),
    ensures
        drain_spec(s, ev).1 == DrainStep::Hold || (drain_spec(s, ev).1 == DrainStep::Offer(ev)
            && (!accepted ==> offer_answer_spec(drain_spec(s, ev).0, ev, accepted).event == Some(ev))),
{
}

/// Folded travel is conserved while the owed delta does not saturate.
pub proof fn lemma_fold_conserves_travel(acc: (i32, i32), x: i32, y: i32)
    requires
        i32::MIN <= acc.0 + x <= i32::MAX,
        i32::MIN <= acc.1 + y <= i32::MAX,
    ensures
        fold_delta(acc, x, y).0 == acc.0 + x,
        fold_delta(acc, x, y).1 == acc.1 + y,
{
}

/// Retiring delivers owed motion before the event held behind it.
pub proof fn lemma_motion_retires_first(s: Owed)
    requires
        s.motion is Some,
    ensures
        retire_next_spec(s) matches Some(ev) && ev is Mouse,
        retire_answer_spec(s, true).event == s.event,
{
}

/// One thing the input service does in a pass, with the channel's answer where it
/// makes an offer: offer its next debt, drain one queued event, or post a heartbeat
/// (offered only when nothing is owed).
#[derive(Clone, Copy, Debug, PartialEq, Eq, Structural)]
pub enum ServiceStep {
    /// Offer the next debt; the channel accepts it or not.
    Retire(bool),
    /// Take the next queued event (while nothing is held); the answer counts only if the
    /// event is offered.
    Drain(bool),
    /// A due heartbeat; the answer counts only if it is offered.
    Beat(bool),
}

/// One service step on the owed state and the queue: the owed state after it, the
/// queue after it, and what the channel accepted.
pub open spec fn service_step(s: Owed, q: Seq<Event>, st: ServiceStep) -> (Owed, Seq<Event>, Seq<Event>) {
    match st {
        ServiceStep::Retire(acc) => if retire_next_spec(s) is Some {
            (retire_answer_spec(s, acc), q, if acc { seq![retire_next_spec(s)->0] } else { Seq::empty() })
        } else {
            (s, q, Seq::empty())
        },
        ServiceStep::Drain(acc) => if s.event is None && q.len() > 0 {
            (drain_after(s, q[0], acc), q.drop_first(), drain_sent(s, q[0], acc))
        } else {
            (s, q, Seq::empty())
        },
        ServiceStep::Beat(acc) => if s.motion is None && s.event is None && acc {
            (s, q, seq![Event::Timer])
        } else {
            (s, q, Seq::empty())
        },
    }
}

/// An interval of service work: the steps in order. Returns the owed state, the queue
/// and everything the channel accepted.
pub open spec fn service_run(s: Owed, q: Seq<Event>, steps: Seq<ServiceStep>) -> (Owed, Seq<Event>, Seq<Event>)
    decreases steps.len(),
{
    if steps.len() == 0 {
        (s, q, Seq::empty())
    } else {
        let r1 = service_step(s, q, steps[0]);
        let r = service_run(r1.0, r1.1, steps.drop_first());
        (r.0, r.1, r1.2 + r.2)
    }
}

/// Must-survive congruence: streams with the same must-survive events keep them equal
/// under the same prefix and suffix.
pub proof fn lemma_order_congruent(p: Seq<Event>, x: Seq<Event>, y: Seq<Event>, t: Seq<Event>)
    requires
        must_survive(x) == must_survive(y),
    ensures
        must_survive(p + x + t) == must_survive(p + y + t),
{
    lemma_must_survive_append(p, x);
    lemma_must_survive_append(p, y);
    lemma_must_survive_append(p + x, t);
    lemma_must_survive_append(p + y, t);
}

/// Chaining two stages in must-survive terms: if `a + o` has the must-survive events of
/// `b`, and `x` has those of `o + t`, then `a + x` has those of `b + t`.
pub proof fn lemma_order_chain(a: Seq<Event>, x: Seq<Event>, o: Seq<Event>, t: Seq<Event>, b: Seq<Event>)
    requires
        must_survive(a + o) == must_survive(b),
        must_survive(x) == must_survive(o + t),
    ensures
        must_survive(a + x) == must_survive(b + t),
{
    let e = Seq::<Event>::empty();
    lemma_order_congruent(a, x, o + t, e);
    lemma_order_congruent(e, a + o, b, t);
    assert(a + x + e =~= a + x);
    assert(a + (o + t) + e =~= e + (a + o) + t);
    assert(e + b + t =~= b + t);
}

/// Chaining two stages in must-survive and segment terms (see [`lemma_order_chain`]).
pub proof fn lemma_stream_chain(a: Seq<Event>, x: Seq<Event>, o: Seq<Event>, t: Seq<Event>, b: Seq<Event>)
    requires
        must_survive(a + o) == must_survive(b),
        seg_travel(a + o) == seg_travel(b),
        must_survive(x) == must_survive(o + t),
        seg_travel(x) == seg_travel(o + t),
    ensures
        must_survive(a + x) == must_survive(b + t),
        seg_travel(a + x) == seg_travel(b + t),
{
    let e = Seq::<Event>::empty();
    lemma_stream_congruent(a, x, o + t, e);
    lemma_stream_congruent(e, a + o, b, t);
    assert(a + x + e =~= a + x);
    assert(a + (o + t) + e =~= e + (a + o) + t);
    assert(e + b + t =~= b + t);
}

/// One service step loses and reorders no must-survive event, whatever the owed state
/// and the queue hold: what it sent, then what is owed, then the queue, has the
/// must-survive events of what was owed and queued before; the queue only loses events
/// at its front.
pub proof fn lemma_service_step_keeps_order(s: Owed, q: Seq<Event>, st: ServiceStep)
    ensures
        ({
            let r = service_step(s, q, st);
            &&& must_survive(r.2 + owed_stream(r.0) + r.1) == must_survive(owed_stream(s) + q)
            &&& r.1.len() <= q.len()
            &&& r.1 == q.subrange(q.len() - r.1.len(), q.len() as int)
        }),
{
    let r = service_step(s, q, st);
    let empty = Seq::<Event>::empty();
    assert(q.subrange(0, q.len() as int) =~= q);
    match st {
        ServiceStep::Retire(acc) => {
            if retire_next_spec(s) is Some {
                lemma_retire_step_keeps_stream(s, acc);
            }
            assert(r.2 + owed_stream(r.0) + r.1 =~= owed_stream(s) + q);
        },
        ServiceStep::Drain(acc) => {
            if s.event is None && q.len() > 0 {
                let ev = q[0];
                let t = q.drop_first();
                let before = owed_stream(s).push(ev);
                lemma_drain_step_order_only(s, ev, acc);
                lemma_order_chain(r.2, owed_stream(r.0) + t, owed_stream(r.0), t, before);
                assert(r.2 + owed_stream(r.0) + r.1 =~= r.2 + (owed_stream(r.0) + t));
                assert(before + t =~= owed_stream(s) + q);
                assert(owed_stream(r.0) + t =~= owed_stream(r.0) + t);
                assert(r.1 =~= q.subrange(q.len() - r.1.len(), q.len() as int));
            } else {
                assert(r.2 + owed_stream(r.0) + r.1 =~= owed_stream(s) + q);
            }
        },
        ServiceStep::Beat(acc) => {
            if s.motion is None && s.event is None && acc {
                let rest = owed_stream(s) + q;
                assert(seq![Event::Timer].drop_last() =~= empty);
                assert(must_survive(seq![Event::Timer]) == must_survive(empty));
                lemma_order_congruent(empty, seq![Event::Timer], empty, rest);
                assert(empty + seq![Event::Timer] + rest =~= r.2 + owed_stream(r.0) + r.1);
                assert(empty + empty + rest =~= rest);
            } else {
                assert(r.2 + owed_stream(r.0) + r.1 =~= owed_stream(s) + q);
            }
        },
    }
}

/// Over any interval of the x86 input service's work (any interleaving of debt
/// retirement, drain steps and heartbeats), whatever the channel answers and whatever
/// the owed state, the queue and the deltas hold, no keystroke, release, click, wheel or
/// absolute report is lost, reordered or invented: what the channel accepted, then what
/// is still owed, then what is still queued, carries exactly the must-survive events of
/// what was owed and queued at the start, in the same order. The service takes events
/// only from the front of the queue.
pub proof fn lemma_interval_keeps_order(s: Owed, q: Seq<Event>, steps: Seq<ServiceStep>)
    ensures
        ({
            let r = service_run(s, q, steps);
            &&& must_survive(r.2 + owed_stream(r.0) + r.1) == must_survive(owed_stream(s) + q)
            &&& r.1.len() <= q.len()
            &&& r.1 == q.subrange(q.len() - r.1.len(), q.len() as int)
        }),
    decreases steps.len(),
{
    if steps.len() == 0 {
        assert(Seq::<Event>::empty() + owed_stream(s) + q =~= owed_stream(s) + q);
        assert(q.subrange(0, q.len() as int) =~= q);
    } else {
        let r1 = service_step(s, q, steps[0]);
        let rr = service_run(r1.0, r1.1, steps.drop_first());
        lemma_service_step_keeps_order(s, q, steps[0]);
        lemma_interval_keeps_order(r1.0, r1.1, steps.drop_first());
        lemma_interval_order_step(s, q, r1, rr);
    }
}

/// The inductive step of [`lemma_interval_keeps_order`], on the two stages' results.
proof fn lemma_interval_order_step(s: Owed, q: Seq<Event>, r1: (Owed, Seq<Event>, Seq<Event>), rr: (Owed, Seq<Event>, Seq<Event>))
    requires
        must_survive(r1.2 + owed_stream(r1.0) + r1.1) == must_survive(owed_stream(s) + q),
        r1.1.len() <= q.len(),
        r1.1 == q.subrange(q.len() - r1.1.len(), q.len() as int),
        must_survive(rr.2 + owed_stream(rr.0) + rr.1) == must_survive(owed_stream(r1.0) + r1.1),
        rr.1.len() <= r1.1.len(),
        rr.1 == r1.1.subrange(r1.1.len() - rr.1.len(), r1.1.len() as int),
    ensures
        must_survive((r1.2 + rr.2) + owed_stream(rr.0) + rr.1) == must_survive(owed_stream(s) + q),
        rr.1.len() <= q.len(),
        rr.1 == q.subrange(q.len() - rr.1.len(), q.len() as int),
{
    let x = rr.2 + owed_stream(rr.0) + rr.1;
    let e = Seq::<Event>::empty();
    assert(r1.2 + owed_stream(r1.0) + r1.1 =~= r1.2 + (owed_stream(r1.0) + r1.1));
    lemma_order_chain(r1.2, x, owed_stream(r1.0) + r1.1, e, owed_stream(s) + q);
    assert(r1.2 + (owed_stream(r1.0) + r1.1) =~= r1.2 + owed_stream(r1.0) + r1.1);
    assert(owed_stream(r1.0) + r1.1 + e =~= owed_stream(r1.0) + r1.1);
    assert(owed_stream(s) + q + e =~= owed_stream(s) + q);
    assert((r1.2 + rr.2) + owed_stream(rr.0) + rr.1 =~= r1.2 + x);
    assert(rr.1 =~= q.subrange(q.len() - rr.1.len(), q.len() as int));
}

/// One service step keeps the stream's segments while total motion fits an `i32`: what
/// it sent, then what is owed, then the queue, has the segments of what was owed and
/// queued before, and total motion does not grow.
pub proof fn lemma_service_step_keeps_segments(s: Owed, q: Seq<Event>, st: ServiceStep)
    requires
        motion_mass(owed_stream(s) + q).0 <= i32::MAX,
        motion_mass(owed_stream(s) + q).1 <= i32::MAX,
    ensures
        ({
            let r = service_step(s, q, st);
            &&& seg_travel(r.2 + owed_stream(r.0) + r.1) == seg_travel(owed_stream(s) + q)
            &&& motion_mass(owed_stream(r.0) + r.1).0 <= motion_mass(owed_stream(s) + q).0
            &&& motion_mass(owed_stream(r.0) + r.1).1 <= motion_mass(owed_stream(s) + q).1
        }),
{
    let r = service_step(s, q, st);
    let empty = Seq::<Event>::empty();
    match st {
        ServiceStep::Retire(acc) => {
            if retire_next_spec(s) is Some {
                lemma_retire_step_keeps_stream(s, acc);
                assert(r.2 + owed_stream(r.0) + r.1 =~= owed_stream(s) + q);
                lemma_mass_append(r.2, owed_stream(r.0));
                lemma_mass_append(owed_stream(r.0), q);
                lemma_mass_append(owed_stream(s), q);
            } else {
                assert(r.2 + owed_stream(r.0) + r.1 =~= owed_stream(s) + q);
            }
        },
        ServiceStep::Drain(acc) => {
            if s.event is None && q.len() > 0 {
                let ev = q[0];
                let t = q.drop_first();
                let before = owed_stream(s).push(ev);
                let piece = r.2 + owed_stream(r.0);
                assert(owed_stream(s) + q =~= before + t);
                lemma_mass_append(before, t);
                lemma_mass_append(piece, t);
                lemma_mass_append(r.2, owed_stream(r.0));
                lemma_mass_append(owed_stream(r.0), t);
                lemma_mass_append(t, empty);
                lemma_drain_step_keeps_segments(s, ev, acc);
                lemma_stream_congruent(empty, piece, before, t);
                assert(empty + piece + t =~= r.2 + owed_stream(r.0) + r.1);
                assert(empty + before + t =~= owed_stream(s) + q);
            } else {
                assert(r.2 + owed_stream(r.0) + r.1 =~= owed_stream(s) + q);
            }
        },
        ServiceStep::Beat(acc) => {
            if s.motion is None && s.event is None && acc {
                let rest = owed_stream(s) + q;
                reveal_with_fuel(seg_travel, 2);
                assert(seq![Event::Timer].drop_last() =~= empty);
                assert(must_survive(seq![Event::Timer]) == must_survive(empty));
                assert(seg_travel(seq![Event::Timer]) == seg_travel(empty));
                lemma_stream_congruent(empty, seq![Event::Timer], empty, rest);
                assert(empty + seq![Event::Timer] + rest =~= r.2 + owed_stream(r.0) + r.1);
                assert(empty + empty + rest =~= rest);
            } else {
                assert(r.2 + owed_stream(r.0) + r.1 =~= owed_stream(s) + q);
            }
        },
    }
}

/// Over any interval of the x86 input service's work, whatever the channel answers,
/// nothing is lost, reordered or invented and no travel moves: what the channel
/// accepted, then what is still owed, then what is still queued, carries exactly the
/// must-survive events of what was owed and queued at the start, in order (this half
/// holds for all inputs, see [`lemma_interval_keeps_order`]), and between each two of
/// them exactly the same relative travel. Heartbeats carry nothing, and each run of
/// refused motion reaches the channel merged into one report. The travel half is
/// stated while the total motion fits an `i32`, so that no merge saturates.
pub proof fn lemma_interval_keeps_stream(s: Owed, q: Seq<Event>, steps: Seq<ServiceStep>)
    requires
        motion_mass(owed_stream(s) + q).0 <= i32::MAX,
        motion_mass(owed_stream(s) + q).1 <= i32::MAX,
    ensures
        ({
            let r = service_run(s, q, steps);
            &&& must_survive(r.2 + owed_stream(r.0) + r.1) == must_survive(owed_stream(s) + q)
            &&& seg_travel(r.2 + owed_stream(r.0) + r.1) == seg_travel(owed_stream(s) + q)
            &&& r.1.len() <= q.len()
            &&& r.1 == q.subrange(q.len() - r.1.len(), q.len() as int)
        }),
    decreases steps.len(),
{
    lemma_interval_keeps_order(s, q, steps);
    if steps.len() == 0 {
        assert(Seq::<Event>::empty() + owed_stream(s) + q =~= owed_stream(s) + q);
    } else {
        let r1 = service_step(s, q, steps[0]);
        let rr = service_run(r1.0, r1.1, steps.drop_first());
        lemma_service_step_keeps_order(s, q, steps[0]);
        lemma_service_step_keeps_segments(s, q, steps[0]);
        lemma_interval_keeps_stream(r1.0, r1.1, steps.drop_first());
        lemma_interval_segment_step(s, q, r1, rr);
    }
}

/// The inductive step of [`lemma_interval_keeps_stream`], on the two stages' results.
proof fn lemma_interval_segment_step(s: Owed, q: Seq<Event>, r1: (Owed, Seq<Event>, Seq<Event>), rr: (Owed, Seq<Event>, Seq<Event>))
    requires
        must_survive(r1.2 + owed_stream(r1.0) + r1.1) == must_survive(owed_stream(s) + q),
        seg_travel(r1.2 + owed_stream(r1.0) + r1.1) == seg_travel(owed_stream(s) + q),
        must_survive(rr.2 + owed_stream(rr.0) + rr.1) == must_survive(owed_stream(r1.0) + r1.1),
        seg_travel(rr.2 + owed_stream(rr.0) + rr.1) == seg_travel(owed_stream(r1.0) + r1.1),
    ensures
        seg_travel((r1.2 + rr.2) + owed_stream(rr.0) + rr.1) == seg_travel(owed_stream(s) + q),
{
    let x = rr.2 + owed_stream(rr.0) + rr.1;
    let e = Seq::<Event>::empty();
    assert(r1.2 + owed_stream(r1.0) + r1.1 =~= r1.2 + (owed_stream(r1.0) + r1.1));
    assert(owed_stream(r1.0) + r1.1 + e =~= owed_stream(r1.0) + r1.1);
    assert(owed_stream(s) + q + e =~= owed_stream(s) + q);
    lemma_stream_chain(r1.2, x, owed_stream(r1.0) + r1.1, e, owed_stream(s) + q);
    assert((r1.2 + rr.2) + owed_stream(rr.0) + rr.1 =~= r1.2 + x);
}

} // verus!
