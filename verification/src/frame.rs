//! Frame pacing of the render passes: which surfaces a pass draws on, whether the
//! status strip is recomposed, whether the cursor sprite moves, is redrawn or is erased,
//! and whether the pass presents at all.

use vstd::prelude::*;
use crate::event::Event;

verus! {

/// What the cursor sprite does for one event.
#[derive(Clone, Copy, Debug, PartialEq, Eq, Structural)]
pub enum CursorOp {
    /// Leave the sprite alone.
    Keep,
    /// Move the shared pointer by a relative delta and repaint the sprite.
    MoveRel { dx: i32, dy: i32 },
    /// Set the shared pointer to an absolute position and repaint the sprite.
    SetAbs { ax: i32, ay: i32 },
}

/// Where a keystroke is dispatched.
#[derive(Clone, Copy, Debug, PartialEq, Eq, Structural)]
pub enum KeyTarget {
    /// The shell's own compositor window (the desktop owns the panel backdrop).
    ShellWindow,
    /// The panel console (the shell still is the backdrop).
    Panel,
}

/// What one render pass owes after the events it handled.
#[derive(Clone, Copy, Debug, PartialEq, Eq, Structural)]
pub struct PassFlags {
    /// The panel's back buffer was drawn on and must be presented.
    pub dirty: bool,
    /// Something repainted under the status strip; recompose it on top.
    pub strip_dirty: bool,
    /// The strip's refresh pulse arrived; recompose it only if its content changed.
    pub strip_tick: bool,
    /// The shell window's surface was drawn on and must be flushed and composited.
    pub shell_dirty: bool,
}

/// Nothing owed: the flags at the top of a pass.
pub open spec fn flags_clear() -> PassFlags {
    PassFlags { dirty: false, strip_dirty: false, strip_tick: false, shell_dirty: false }
}

/// The flags after one keystroke (USB or serial) is dispatched.
pub open spec fn key_flags(f: PassFlags, windowed: bool) -> PassFlags {
    if windowed {
        PassFlags { shell_dirty: true, ..f }
    } else {
        PassFlags { dirty: true, strip_dirty: true, ..f }
    }
}

/// What the render service does with one received event.
#[derive(Clone, Copy, Debug)]
pub struct RenderStep {
    /// The pass flags after the event.
    pub flags: PassFlags,
    /// The cursor operation.
    pub cursor: CursorOp,
    /// The last absolute position seen, after the event.
    pub last_abs: Option<(i32, i32)>,
    /// A keystroke to dispatch, and to which console.
    pub key: Option<(u8, KeyTarget)>,
    /// A button report to hand to the click dispatcher.
    pub button: Option<u8>,
}

/// The render service's handling of one received event. `windowed` says whether the
/// shell is a compositor window as of this pass; `last_abs` is the last absolute
/// position drawn (an unchanged absolute report is an idle keep-alive).
pub open spec fn render_event_spec(ev: Event, f: PassFlags, windowed: bool, last_abs: Option<(i32, i32)>) -> RenderStep {
    let none = RenderStep { flags: f, cursor: CursorOp::Keep, last_abs, key: None, button: None };
    match ev {
        Event::Key(c) => RenderStep {
            flags: key_flags(f, windowed),
            key: Some((c, if windowed { KeyTarget::ShellWindow } else { KeyTarget::Panel })),
            ..none
        },
        Event::Mouse { x, y } => if x != 0 || y != 0 {
            RenderStep { cursor: CursorOp::MoveRel { dx: x, dy: y }, ..none }
        } else {
            none
        },
        Event::MouseAbsolute { x, y } => if last_abs != Some((x, y)) {
            RenderStep { cursor: CursorOp::SetAbs { ax: x, ay: y }, last_abs: Some((x, y)), ..none }
        } else {
            none
        },
        Event::Button(mask) => RenderStep {
            flags: PassFlags { dirty: true, strip_dirty: true, ..f },
            button: Some(mask),
            ..none
        },
        Event::Timer => RenderStep { flags: PassFlags { strip_tick: true, ..f }, ..none },
        _ => none,
    }
}

/// Decides one received event for the aarch64 render service.
pub fn render_event(ev: Event, f: PassFlags, windowed: bool, last_abs: Option<(i32, i32)>) -> (r: RenderStep)
    ensures
        r == render_event_spec(ev, f, windowed, last_abs),
{
    let none = RenderStep { flags: f, cursor: CursorOp::Keep, last_abs, key: None, button: None };
    match ev {
        Event::Key(c) => {
            let flags = if windowed {
                PassFlags { shell_dirty: true, ..f }
            } else {
                PassFlags { dirty: true, strip_dirty: true, ..f }
            };
            let target = if windowed { KeyTarget::ShellWindow } else { KeyTarget::Panel };
            RenderStep { flags, key: Some((c, target)), ..none }
        },
        Event::Mouse { x, y } => {
            if x != 0 || y != 0 {
                RenderStep { cursor: CursorOp::MoveRel { dx: x, dy: y }, ..none }
            } else {
                none
            }
        },
        Event::MouseAbsolute { x, y } => {
            let same = match last_abs {
                Some((lx, ly)) => lx == x && ly == y,
                None => false,
            };
            if !same {
                RenderStep { cursor: CursorOp::SetAbs { ax: x, ay: y }, last_abs: Some((x, y)), ..none }
            } else {
                none
            }
        },
        Event::Button(mask) => RenderStep {
            flags: PassFlags { dirty: true, strip_dirty: true, ..f },
            button: Some(mask),
            ..none
        },
        Event::Timer => RenderStep { flags: PassFlags { strip_tick: true, ..f }, ..none },
        _ => none,
    }
}

/// The flags after the pass dispatched `n` serial bytes from the shell inbox.
pub fn serial_bytes_flags(f: PassFlags, windowed: bool, n: usize) -> (r: PassFlags)
    ensures
        n == 0 ==> r == f,
        n > 0 ==> r == key_flags(f, windowed),
{
    if n == 0 {
        f
    } else if windowed {
        PassFlags { shell_dirty: true, ..f }
    } else {
        PassFlags { dirty: true, strip_dirty: true, ..f }
    }
}

/// The tail of a pass: whether the status strip is recomposed unconditionally, whether
/// its paced refresh runs, and whether the panel is presented. `tick_drew` is what the
/// paced refresh reported (it only matters when it runs).
pub fn strip_and_present(f: PassFlags, tick_drew: bool) -> (r: (bool, bool, bool))
    ensures
        r.0 == f.strip_dirty,
        r.1 == (!f.strip_dirty && f.strip_tick),
        r.2 == (f.dirty || f.strip_dirty || (f.strip_tick && tick_drew)),
{
    if f.strip_dirty {
        (true, false, true)
    } else if f.strip_tick {
        (false, true, f.dirty || tick_drew)
    } else {
        (false, false, f.dirty)
    }
}

/// The sprite is taken off the panel exactly once, on the pass where its auto-hide
/// delay has expired.
pub fn cursor_hide_due(was_visible: bool, visible: bool) -> (r: bool)
    ensures
        r == (was_visible && !visible),
{
    was_visible && !visible
}

/// The Orin console frame: what a pass does to the sprite and whether it presents.
#[derive(Clone, Copy, Debug, PartialEq, Eq, Structural)]
pub struct FramePlan {
    /// Restore under the sprite, apply the pass's pointer moves, draw it again.
    pub move_sprite: bool,
    /// Draw the sprite back over a key repaint (no pointer moved).
    pub redraw_sprite: bool,
    /// Take the sprite off (its auto-hide delay expired this pass).
    pub erase_sprite: bool,
    /// Present the surface.
    pub render: bool,
}

/// Plans a console frame. `key_repaint`: a keystroke repainted the console this pass;
/// `has_pointer`: a relative or absolute report arrived; `visible`: the sprite's
/// visibility now; `was_visible`: its visibility at the start of the pass.
pub fn frame_plan(key_repaint: bool, has_pointer: bool, visible: bool, was_visible: bool) -> (r: FramePlan)
    ensures
        r.move_sprite == has_pointer,
        r.redraw_sprite == (!has_pointer && key_repaint && visible),
        r.erase_sprite == (was_visible && !visible),
        r.render == (key_repaint || has_pointer || (was_visible && !visible)),
{
    let erase = was_visible && !visible;
    FramePlan {
        move_sprite: has_pointer,
        redraw_sprite: !has_pointer && key_repaint && visible,
        erase_sprite: erase,
        render: key_repaint || has_pointer || erase,
    }
}

/// Where the x86 render service sends a keystroke: nowhere when the installer overlay
/// consumed it; on the desktop, into the shell window if one exists (else it has no
/// home); off the desktop, into the panel console.
pub fn x86_key_target(consumed: bool, desktop: bool, has_window: bool) -> (r: Option<KeyTarget>)
    ensures
        consumed ==> r is None,
        !consumed && desktop && has_window ==> r == Some(KeyTarget::ShellWindow),
        !consumed && desktop && !has_window ==> r is None,
        !consumed && !desktop ==> r == Some(KeyTarget::Panel),
{
    if consumed {
        None
    } else if desktop {
        if has_window { Some(KeyTarget::ShellWindow) } else { None }
    } else {
        Some(KeyTarget::Panel)
    }
}

/// Whether a render instance mints the shell window when it starts: only on the desktop,
/// and never in a rescue instance (the dead instance's window row is still registered).
pub fn mint_shell_at_start(desktop: bool, rescue: bool) -> (r: bool)
    ensures
        r == (desktop && !rescue),
{
    desktop && !rescue
}

/// What the dock's shell-reopen request does.
#[derive(Clone, Copy, Debug, PartialEq, Eq, Structural)]
pub enum ShellReopen {
    /// The shell window is alive and the desktop's own: raise it and give it the keyboard.
    RaiseExisting,
    /// Mint a new shell window.
    MintNew,
}

/// Decides a shell-reopen request from the dock.
pub fn shell_reopen(has_window: bool, owned_by_desktop: bool) -> (r: ShellReopen)
    ensures
        has_window && owned_by_desktop ==> r == ShellReopen::RaiseExisting,
        !(has_window && owned_by_desktop) ==> r == ShellReopen::MintNew,
{
    if has_window && owned_by_desktop { ShellReopen::RaiseExisting } else { ShellReopen::MintNew }
}

/// Whether the aarch64 render pass mints the shell window now: on a desktop build, once,
/// after the boot witness cascade has released the panel, unless a mint was already
/// declined.
pub fn pi_shell_mint_due(desktop: bool, has_window: bool, declined: bool, armed: bool) -> (r: bool)
    ensures
        r == (desktop && !has_window && !declined && armed),
{
    desktop && !has_window && !declined && armed
}

/// An idle pointer costs nothing: a null relative report or a repeated absolute
/// position neither moves the sprite nor asks for a present.
pub proof fn lemma_idle_pointer_is_free(f: PassFlags, windowed: bool, last: (i32, i32))
    ensures
        render_event_spec(Event::Mouse { x: 0, y: 0 }, f, windowed, Some(last)).cursor == CursorOp::Keep,
        render_event_spec(Event::Mouse { x: 0, y: 0 }, f, windowed, Some(last)).flags == f,
        render_event_spec(Event::MouseAbsolute { x: last.0, y: last.1 }, f, windowed, Some(last)).cursor == CursorOp::Keep,
        render_event_spec(Event::MouseAbsolute { x: last.0, y: last.1 }, f, windowed, Some(last)).flags == f,
{
}

/// A keystroke into the shell window never presents the panel backdrop.
pub proof fn lemma_window_keys_leave_backdrop(c: u8, f: PassFlags)
    ensures
        render_event_spec(Event::Key(c), f, true, None).flags.dirty == f.dirty,
        render_event_spec(Event::Key(c), f, true, None).flags.shell_dirty,
{
}

/// Any relative report with a nonzero delta, horizontal, vertical or both, moves the
/// sprite by exactly that delta and touches nothing else of the pass: no flag, no key,
/// no click, and the last absolute position stays as it was. Only the null report
/// `(0, 0)` is the idle keep-alive that leaves the sprite alone.
pub proof fn lemma_relative_motion_moves(x: i32, y: i32, f: PassFlags, windowed: bool, last_abs: Option<(i32, i32)>)
    ensures
        (x != 0 || y != 0) ==> render_event_spec(Event::Mouse { x, y }, f, windowed, last_abs).cursor
            == (CursorOp::MoveRel { dx: x, dy: y }),
        (x == 0 && y == 0) ==> render_event_spec(Event::Mouse { x, y }, f, windowed, last_abs).cursor == CursorOp::Keep,
        render_event_spec(Event::Mouse { x, y }, f, windowed, last_abs).flags == f,
        render_event_spec(Event::Mouse { x, y }, f, windowed, last_abs).last_abs == last_abs,
        render_event_spec(Event::Mouse { x, y }, f, windowed, last_abs).key is None,
        render_event_spec(Event::Mouse { x, y }, f, windowed, last_abs).button is None,
{
}

} // verus!
