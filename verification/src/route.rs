//! Where the aarch64 USB pump sends the events it drains from the kernel queue.
//!
//! A user program holding input focus receives everything in its own ring; a full-screen
//! kernel app owning the panel reads the queue itself, so the pump leaves the events
//! there (only peeking for the focus key and for a click to witness); otherwise the shell
//! path forwards keys and pointer reports to the render task, offers clicks to the window
//! layer first, and accounts wheel deltas that nobody can receive.

use vstd::prelude::*;
use crate::event::Event;
use crate::frame::CursorOp;

verus! {

/// The destination of one pump pass.
#[derive(Clone, Copy, Debug, PartialEq, Eq, Structural)]
pub enum PumpRoute {
    /// A user program holds focus: drain into its ring.
    UserRing,
    /// A full-screen kernel app owns the panel: leave the queue to it.
    LeaveForApp,
    /// The shell holds focus: forward to the render task.
    Shell,
}

/// Chooses the pass's destination. User focus takes precedence: a user `run` is
/// dispatched through a shell command, so both flags are live during it and the user
/// ring is the real sink.
pub fn pump_route(user_focus: usize, app_active: bool) -> (r: PumpRoute)
    ensures
        user_focus != 0 ==> r == PumpRoute::UserRing,
        user_focus == 0 && app_active ==> r == PumpRoute::LeaveForApp,
        user_focus == 0 && !app_active ==> r == PumpRoute::Shell,
{
    if user_focus != 0 {
        PumpRoute::UserRing
    } else if app_active {
        PumpRoute::LeaveForApp
    } else {
        PumpRoute::Shell
    }
}

/// The system cursor's keep-alive on the user-ring path: the cursor is system-wide, so
/// pointer reports move it whoever holds focus, except the boot selftest's synthetic
/// reports.
pub fn router_cursor(ev: Event, selftest: bool) -> (r: CursorOp)
    ensures
        selftest ==> r == CursorOp::Keep,
        !selftest ==> r == (match ev {
            Event::Mouse { x, y } => if x != 0 || y != 0 { CursorOp::MoveRel { dx: x, dy: y } } else { CursorOp::Keep },
            Event::MouseAbsolute { x, y } => CursorOp::SetAbs { ax: x, ay: y },
            _ => CursorOp::Keep,
        }),
{
    if selftest {
        return CursorOp::Keep;
    }
    match ev {
        Event::Mouse { x, y } => {
            if x != 0 || y != 0 {
                CursorOp::MoveRel { dx: x, dy: y }
            } else {
                CursorOp::Keep
            }
        },
        Event::MouseAbsolute { x, y } => CursorOp::SetAbs { ax: x, ay: y },
        _ => CursorOp::Keep,
    }
}

/// What the wheel census records for an event the router handed to the focused ring.
#[derive(Clone, Copy, Debug, PartialEq, Eq, Structural)]
pub enum WheelNote {
    /// Not a wheel event.
    NotWheel,
    /// A wheel delta landed in the focused ring.
    Routed,
    /// A wheel delta was decoded but nobody could receive it.
    NoFocus,
}

/// Accounts one event the router offered to the focused ring: `queued` is the ring's
/// answer. Returns the new routed count and the wheel census entry.
pub fn router_account(ev: Event, queued: bool, routed: usize) -> (r: (usize, WheelNote))
    requires
        routed < usize::MAX,
    ensures
        r.0 == (if queued { routed + 1 } else { routed as int }),
        r.1 == (if ev is Wheel { if queued { WheelNote::Routed } else { WheelNote::NoFocus } } else { WheelNote::NotWheel }),
{
    let note = match ev {
        Event::Wheel(_) => if queued { WheelNote::Routed } else { WheelNote::NoFocus },
        _ => WheelNote::NotWheel,
    };
    (if queued { routed + 1 } else { routed }, note)
}

/// What the focus key (TAB) interception reported for one event.
#[derive(Clone, Copy, Debug, PartialEq, Eq, Structural)]
pub enum TabOutcome {
    /// The interception did not consume the event.
    NotConsumed,
    /// Consumed without moving focus (the release edge of a consumed TAB).
    Swallowed,
    /// Consumed, and focus moved to another window.
    FocusMoved,
}

/// Classifies the interception's answer: `consumed` is what it returned, `before` and
/// `after` the focused target read around the call. Only an actual change of focus
/// counts as a move.
pub fn tab_outcome(consumed: bool, before: usize, after: usize) -> (r: TabOutcome)
    ensures
        !consumed ==> r == TabOutcome::NotConsumed,
        consumed && before != after ==> r == TabOutcome::FocusMoved,
        consumed && before == after ==> r == TabOutcome::Swallowed,
{
    if !consumed {
        TabOutcome::NotConsumed
    } else if before != after {
        TabOutcome::FocusMoved
    } else {
        TabOutcome::Swallowed
    }
}

/// What the shell drain does with one event the focus key interception passed on.
#[derive(Clone, Copy, Debug, PartialEq, Eq, Structural)]
pub enum ShellAction {
    /// Forward the key to the render task.
    SendKey,
    /// Forward the pointer report to the render task (witness shows `dx`, `dy`).
    SendPointer { dx: i32, dy: i32 },
    /// Offer the click to the window layer first.
    ClickRoute { mask: u8 },
    /// A wheel delta with no receiver: count it, forward nothing.
    WheelNoFocus,
    /// Nothing to forward (heartbeat, release, sentinel, unknown).
    Drop,
}

/// The shell drain's action for one event.
pub fn shell_action(ev: Event) -> (r: ShellAction)
    ensures
        r == (match ev {
            Event::Key(_) => ShellAction::SendKey,
            Event::Mouse { x, y } => ShellAction::SendPointer { dx: x, dy: y },
            Event::MouseAbsolute { x, y } => ShellAction::SendPointer { dx: x, dy: y },
            Event::Button(mask) => ShellAction::ClickRoute { mask },
            Event::Wheel(_) => ShellAction::WheelNoFocus,
            _ => ShellAction::Drop,
        }),
{
    match ev {
        Event::Key(_) => ShellAction::SendKey,
        Event::Mouse { x, y } => ShellAction::SendPointer { dx: x, dy: y },
        Event::MouseAbsolute { x, y } => ShellAction::SendPointer { dx: x, dy: y },
        Event::Button(mask) => ShellAction::ClickRoute { mask },
        Event::Wheel(_) => ShellAction::WheelNoFocus,
        _ => ShellAction::Drop,
    }
}

/// What happens to a click after the window layer saw it.
#[derive(Clone, Copy, Debug, PartialEq, Eq, Structural)]
pub enum ClickOutcome {
    /// The window layer consumed it; carry on draining.
    Consumed,
    /// It raised a window: deliver the press to the newly focused app and stop this
    /// drain (the remaining events belong to the new focus).
    RaisedWindow,
    /// A miss: the console keeps the click; forward it to the render task.
    ToShell,
}

/// Classifies the window layer's answer to a click.
pub fn click_outcome(consumed: bool, before: usize, after: usize) -> (r: ClickOutcome)
    ensures
        consumed ==> r == ClickOutcome::Consumed,
        !consumed && before != after ==> r == ClickOutcome::RaisedWindow,
        !consumed && before == after ==> r == ClickOutcome::ToShell,
{
    if consumed {
        ClickOutcome::Consumed
    } else if before != after {
        ClickOutcome::RaisedWindow
    } else {
        ClickOutcome::ToShell
    }
}

/// The most events the full-screen-app peek holds at once (the queue's size).
pub const PEEK_CAP: usize = 64;

/// The full-screen-app peek: events taken out of the queue without being counted,
/// to be put back in the same order unless the focus key moved focus.
pub struct AppPeek {
    /// The events held, in queue order.
    pub held: Vec<Event>,
    /// A press was among them (for the `[click2]` witness).
    pub saw_button: bool,
    /// The focus key moved focus; the held events are discarded, not requeued.
    pub cycled: bool,
    /// Events consumed by the focus key without moving focus.
    pub swallowed: usize,
}

/// The peek at its start.
pub fn app_peek_new() -> (r: AppPeek)
    ensures
        r.held@ == Seq::<Event>::empty(),
        !r.saw_button,
        !r.cycled,
        r.swallowed == 0,
{
    AppPeek { held: Vec::new(), saw_button: false, cycled: false, swallowed: 0 }
}

/// Whether the peek takes another event: it stops when focus moved or it is full.
pub open spec fn peek_open(p: &AppPeek) -> bool {
    !p.cycled && p.held@.len() < PEEK_CAP
}

/// Whether the peek takes another event.
pub fn app_peek_open(p: &AppPeek) -> (r: bool)
    ensures
        r == peek_open(p),
{
    !p.cycled && p.held.len() < PEEK_CAP
}

/// Takes one peeked event with the focus key interception's answer for it.
pub fn app_peek_take(p: &mut AppPeek, ev: Event, tab: TabOutcome)
    requires
        peek_open(old(p)),
        old(p).swallowed < usize::MAX,
    ensures
        tab == TabOutcome::FocusMoved ==> final(p).cycled && final(p).held@ == old(p).held@
            && final(p).saw_button == old(p).saw_button && final(p).swallowed == old(p).swallowed,
        tab == TabOutcome::Swallowed ==> !final(p).cycled && final(p).held@ == old(p).held@
            && final(p).saw_button == old(p).saw_button && final(p).swallowed == old(p).swallowed + 1,
        tab == TabOutcome::NotConsumed ==> !final(p).cycled && final(p).held@ == old(p).held@.push(ev)
            && final(p).saw_button == (old(p).saw_button || ev is Button) && final(p).swallowed == old(p).swallowed,
{
    match tab {
        TabOutcome::FocusMoved => {
            p.cycled = true;
        },
        TabOutcome::Swallowed => {
            p.swallowed = p.swallowed + 1;
        },
        TabOutcome::NotConsumed => {
            if let Event::Button(_) = ev {
                p.saw_button = true;
            }
            p.held.push(ev);
        },
    }
}

/// What the pump does with the peek when it ends.
#[derive(Clone, Copy, Debug, PartialEq, Eq, Structural)]
pub struct PeekEnd {
    /// Put the held events back in order (false: discard them).
    pub requeue: bool,
    /// Events leaving the pipeline uncounted, to be accounted as discards.
    pub discarded: usize,
    /// Emit the `[click2] input left for app` witness.
    pub click_witness: bool,
}

/// Ends the peek. When focus moved, the held events and the focus key itself leave the
/// pipeline (a fresh focus starts clean); otherwise they go back to the app untouched.
/// Swallowed release edges leave the pipeline either way.
pub fn app_peek_end(p: &AppPeek) -> (r: PeekEnd)
    requires
        p.held@.len() + p.swallowed + 1 <= usize::MAX,
    ensures
        r.requeue == !p.cycled,
        r.discarded == (if p.cycled { p.held@.len() + 1 + p.swallowed } else { p.swallowed as int }),
        r.click_witness == (p.saw_button && !p.cycled),
{
    if p.cycled {
        PeekEnd { requeue: false, discarded: p.held.len() + 1 + p.swallowed, click_witness: false }
    } else {
        PeekEnd { requeue: true, discarded: p.swallowed, click_witness: p.saw_button }
    }
}

/// The shell-path input counters of the `[uvug9]` witness after one forwarded event.
pub fn shell_input_count(keys: u64, ptrs: u64, is_key: bool) -> (r: (u64, u64))
    ensures
        is_key ==> r == (keys.wrapping_add(1), ptrs),
        !is_key ==> r == (keys, ptrs.wrapping_add(1)),
{
    if is_key {
        (keys.wrapping_add(1), ptrs)
    } else {
        (keys, ptrs.wrapping_add(1))
    }
}

/// The events a run of peek steps keeps, in order: those the focus key interception
/// did not consume.
pub open spec fn kept_events(steps: Seq<(Event, TabOutcome)>) -> Seq<Event>
    decreases steps.len(),
{
    if steps.len() == 0 {
        Seq::empty()
    } else {
        let rest = kept_events(steps.drop_last());
        if steps.last().1 == TabOutcome::NotConsumed { rest.push(steps.last().0) } else { rest }
    }
}

/// The peek keeps no more events than it took.
pub proof fn lemma_kept_bounded(steps: Seq<(Event, TabOutcome)>)
    ensures
        kept_events(steps).len() <= steps.len(),
    decreases steps.len(),
{
    if steps.len() > 0 {
        lemma_kept_bounded(steps.drop_last());
    }
}

/// While focus stays put, what the peek holds (and hands back to the full-screen app)
/// is exactly the events it took and did not consume, in queue order: each step of
/// [`app_peek_take`] extends the held events precisely as [`kept_events`] extends over
/// the run, so by induction the app's input is neither reordered nor invented.
pub proof fn lemma_peek_hands_back_in_order(held: Seq<Event>, steps: Seq<(Event, TabOutcome)>, ev: Event, tab: TabOutcome)
    requires
        held == kept_events(steps),
        tab != TabOutcome::FocusMoved,
    ensures
        kept_events(steps.push((ev, tab))) == (if tab == TabOutcome::NotConsumed { held.push(ev) } else { held }),
{
    assert(steps.push((ev, tab)).drop_last() =~= steps);
}

} // verus!
