//! Pointer coalescing on the render side.
//!
//! The x86 render service folds a run of relative reports that arrived back to back into
//! one move (saturating), and keeps the first event after the run for the next
//! dispatch. The Orin console pump collects one pass's pointer reports into at most one
//! relative move and one absolute position before it touches the sprite.

use vstd::prelude::*;
use crate::event::Event;
use crate::sat::{sat_add_i32, sat_add_i32_spec};

verus! {

/// The fold of the leading relative reports of `evs` into `(x, y)`, with the number of
/// reports folded.
pub open spec fn fold_leading_spec(x: i32, y: i32, evs: Seq<Event>) -> (i32, i32, nat)
    decreases evs.len(),
{
    if evs.len() == 0 {
        (x, y, 0)
    } else {
        match evs[0] {
            Event::Mouse { x: nx, y: ny } => {
                let r = fold_leading_spec(sat_add_i32_spec(x as int, nx as int), sat_add_i32_spec(y as int, ny as int), evs.drop_first());
                (r.0, r.1, r.2 + 1)
            },
            _ => (x, y, 0),
        }
    }
}

/// One step of the render-side fold: when the next event is relative motion, the
/// accumulated move after adding it; `None` when the run has ended and `next` must be
/// dispatched on its own.
pub fn fold_next(acc: (i32, i32), next: Event) -> (r: Option<(i32, i32)>)
    ensures
        next matches Event::Mouse { x, y } ==> r == Some((sat_add_i32_spec(acc.0 as int, x as int), sat_add_i32_spec(acc.1 as int, y as int))),
        !(next is Mouse) ==> r is None,
{
    match next {
        Event::Mouse { x, y } => Some((sat_add_i32(acc.0, x), sat_add_i32(acc.1, y))),
        _ => None,
    }
}

/// Folds the leading run of relative reports in `queued` into the move `(x, y)` that
/// started it. Returns the folded move and how many queued events were consumed; the
/// event at that index (if any) is the next one to dispatch.
pub fn fold_leading_motion(x: i32, y: i32, queued: &Vec<Event>) -> (r: (i32, i32, usize))
    ensures
        (r.0, r.1, r.2 as nat) == fold_leading_spec(x, y, queued@),
{
    let mut sx = x;
    let mut sy = y;
    let mut i: usize = 0;
    assert(queued@.subrange(0, queued@.len() as int) =~= queued@);
    while i < queued.len()
        invariant
            i <= queued.len(),
            ({
                let whole = fold_leading_spec(x, y, queued@);
                let rest = fold_leading_spec(sx, sy, queued@.subrange(i as int, queued@.len() as int));
                whole.0 == rest.0 && whole.1 == rest.1 && whole.2 == rest.2 + i
            }),
        decreases queued.len() - i,
    {
        let ghost rest = queued@.subrange(i as int, queued@.len() as int);
        assert(rest.drop_first() =~= queued@.subrange(i + 1, queued@.len() as int));
        match fold_next((sx, sy), queued[i]) {
            Some((nx, ny)) => {
                sx = nx;
                sy = ny;
                i = i + 1;
            },
            None => {
                return (sx, sy, i);
            },
        }
    }
    assert(queued@.subrange(i as int, queued@.len() as int) =~= Seq::<Event>::empty());
    (sx, sy, i)
}

/// The summed relative travel in a sequence of events, per axis.
pub open spec fn rel_sum(evs: Seq<Event>) -> (int, int)
    decreases evs.len(),
{
    if evs.len() == 0 {
        (0, 0)
    } else {
        let r = rel_sum(evs.drop_last());
        match evs.last() {
            Event::Mouse { x, y } => (r.0 + x, r.1 + y),
            _ => r,
        }
    }
}

/// Whether a sequence of events holds any relative report.
pub open spec fn has_rel(evs: Seq<Event>) -> bool {
    exists|i: int| 0 <= i < evs.len() && #[trigger] evs[i] is Mouse
}

/// The last absolute position in a sequence of events.
pub open spec fn last_abs(evs: Seq<Event>) -> Option<(i32, i32)>
    decreases evs.len(),
{
    if evs.len() == 0 {
        None
    } else {
        match evs.last() {
            Event::MouseAbsolute { x, y } => Some((x, y)),
            _ => last_abs(evs.drop_last()),
        }
    }
}

/// Every running sum of relative travel fits an `i32` (the console pump sums with plain
/// `i32` additions).
pub open spec fn rel_sums_fit(evs: Seq<Event>) -> bool {
    forall|k: int| 0 <= k <= evs.len() ==> {
        let s = #[trigger] rel_sum(evs.take(k));
        i32::MIN <= s.0 <= i32::MAX && i32::MIN <= s.1 <= i32::MAX
    }
}

/// Collects one pass's pointer reports: the summed relative move (if any relative report
/// arrived) and the last absolute position (if any absolute report arrived).
pub fn coalesce_pointer(evs: &Vec<Event>) -> (r: (Option<(i32, i32)>, Option<(i32, i32)>))
    requires
        rel_sums_fit(evs@),
    ensures
        r.0 == (if has_rel(evs@) { Some(((rel_sum(evs@).0) as i32, (rel_sum(evs@).1) as i32)) } else { None }),
        r.1 == last_abs(evs@),
{
    let mut rel: Option<(i32, i32)> = None;
    let mut abs: Option<(i32, i32)> = None;
    let mut i: usize = 0;
    assert(evs@.take(0) =~= Seq::<Event>::empty());
    while i < evs.len()
        invariant
            i <= evs.len(),
            rel_sums_fit(evs@),
            rel == (if has_rel(evs@.take(i as int)) { Some(((rel_sum(evs@.take(i as int)).0) as i32, (rel_sum(evs@.take(i as int)).1) as i32)) } else { None }),
            !has_rel(evs@.take(i as int)) ==> rel_sum(evs@.take(i as int)) == (0int, 0int),
            abs == last_abs(evs@.take(i as int)),
        decreases evs.len() - i,
    {
        let ghost pre = evs@.take(i as int);
        let ghost next = evs@.take(i + 1);
        assert(next.drop_last() =~= pre);
        assert(next.last() == evs@[i as int]);
        let ghost _s = rel_sum(next);
        assert(0 <= i + 1 <= evs@.len());
        match evs[i] {
            Event::Mouse { x, y } => {
                let (ax, ay) = match rel {
                    Some(p) => p,
                    None => (0i32, 0i32),
                };
                rel = Some((ax + x, ay + y));
                assert(next[i as int] is Mouse);
            },
            Event::MouseAbsolute { x, y } => {
                abs = Some((x, y));
                assert forall|j: int| 0 <= j < next.len() && #[trigger] next[j] is Mouse implies 0 <= j < pre.len() && pre[j] is Mouse by {
                    if j < pre.len() { assert(pre[j] == next[j]); }
                }
            },
            _ => {
                assert forall|j: int| 0 <= j < next.len() && #[trigger] next[j] is Mouse implies 0 <= j < pre.len() && pre[j] is Mouse by {
                    if j < pre.len() { assert(pre[j] == next[j]); }
                }
            },
        }
        assert(has_rel(pre) ==> has_rel(next)) by {
            if has_rel(pre) {
                let j = choose|j: int| 0 <= j < pre.len() && #[trigger] pre[j] is Mouse;
                assert(next[j] == pre[j]);
            }
        }
        i = i + 1;
    }
    assert(evs@.take(evs@.len() as int) =~= evs@);
    (rel, abs)
}

/// Folding is lossless while the sum stays in range: a run of relative reports moves
/// the pointer by exactly their total travel.
pub proof fn lemma_fold_is_total_travel(x: i32, y: i32, evs: Seq<Event>)
    requires
        forall|i: int| 0 <= i < evs.len() ==> #[trigger] evs[i] is Mouse,
        forall|k: int| 0 <= k <= evs.len() ==> {
            let s = #[trigger] rel_sum(evs.take(k));
            i32::MIN <= x + s.0 <= i32::MAX && i32::MIN <= y + s.1 <= i32::MAX
        },
    ensures
        fold_leading_spec(x, y, evs).0 == x + rel_sum(evs).0,
        fold_leading_spec(x, y, evs).1 == y + rel_sum(evs).1,
        fold_leading_spec(x, y, evs).2 == evs.len(),
    decreases evs.len(),
{
    if evs.len() > 0 {
        let e0 = evs[0];
        let t = evs.drop_first();
        assert(evs.take(1) =~= seq![e0]);
        assert(seq![e0].drop_last() =~= Seq::<Event>::empty());
        let _ = rel_sum(evs.take(1));
        match e0 {
            Event::Mouse { x: nx, y: ny } => {
                let x2 = sat_add_i32_spec(x as int, nx as int);
                let y2 = sat_add_i32_spec(y as int, ny as int);
                reveal_with_fuel(rel_sum, 2);
                assert(rel_sum(seq![e0]) == (nx as int, ny as int));
                assert(evs =~= seq![e0] + t);
                assert(rel_sum(evs.take(1)) == (nx as int, ny as int));
                assert(i32::MIN <= x + rel_sum(evs.take(1)).0 <= i32::MAX);
                assert(i32::MIN <= y + rel_sum(evs.take(1)).1 <= i32::MAX);
                assert(x2 == x + nx);
                assert(y2 == y + ny);
                lemma_rel_sum_cons(e0, t);
                assert forall|i: int| 0 <= i < t.len() implies #[trigger] t[i] is Mouse by {
                    assert(t[i] == evs[i + 1]);
                }
                assert forall|k: int| 0 <= k <= t.len() implies {
                    let s = #[trigger] rel_sum(t.take(k));
                    i32::MIN <= x2 + s.0 <= i32::MAX && i32::MIN <= y2 + s.1 <= i32::MAX
                } by {
                    assert(evs.take(k + 1) =~= seq![e0] + t.take(k));
                    lemma_rel_sum_cons(e0, t.take(k));
                    assert(seq![e0].add(t.take(k)) =~= evs.take(k + 1));
                    let _ = rel_sum(evs.take(k + 1));
                }
                lemma_fold_is_total_travel(x2, y2, t);
            },
            _ => {},
        }
    }
}

/// The travel of an event followed by a sequence is the event's travel plus the
/// sequence's.
pub proof fn lemma_rel_sum_cons(e: Event, t: Seq<Event>)
    ensures
        rel_sum(seq![e] + t).0 == rel_sum(seq![e]).0 + rel_sum(t).0,
        rel_sum(seq![e] + t).1 == rel_sum(seq![e]).1 + rel_sum(t).1,
    decreases t.len(),
{
    assert(seq![e].drop_last() =~= Seq::<Event>::empty());
    if t.len() == 0 {
        assert(seq![e] + t =~= seq![e]);
    } else {
        let s = seq![e] + t;
        assert(s.drop_last() =~= seq![e] + t.drop_last());
        lemma_rel_sum_cons(e, t.drop_last());
    }
}

/// The render-side fold consumes exactly the leading run of relative reports and never
/// crosses another event: every event before the returned count is a relative report,
/// and the event at the count, if any, is not one (it is the next to dispatch).
pub proof fn lemma_fold_stops_at_first_non_motion(x: i32, y: i32, evs: Seq<Event>)
    ensures
        fold_leading_spec(x, y, evs).2 <= evs.len(),
        forall|i: int| 0 <= i < fold_leading_spec(x, y, evs).2 ==> #[trigger] evs[i] is Mouse,
        fold_leading_spec(x, y, evs).2 < evs.len() ==> !(evs[fold_leading_spec(x, y, evs).2 as int] is Mouse),
    decreases evs.len(),
{
    if evs.len() > 0 {
        let t = evs.drop_first();
        match evs[0] {
            Event::Mouse { x: nx, y: ny } => {
                let x2 = sat_add_i32_spec(x as int, nx as int);
                let y2 = sat_add_i32_spec(y as int, ny as int);
                lemma_fold_stops_at_first_non_motion(x2, y2, t);
                let n = fold_leading_spec(x2, y2, t).2;
                assert forall|i: int| 0 <= i < n + 1 implies #[trigger] evs[i] is Mouse by {
                    if i > 0 {
                        assert(evs[i] == t[i - 1]);
                    }
                }
                if n < t.len() {
                    assert(evs[(n + 1) as int] == t[n as int]);
                }
            },
            _ => {},
        }
    }
}

} // verus!
