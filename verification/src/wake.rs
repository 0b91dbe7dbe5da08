//! Wakes and heartbeats posted into the render task's channel: the serial console's
//! coalesced wake token, the status strip's refresh pulse and the metal status tick.
//!
//! The render task blocks on its channel; these are the only non-input reasons it wakes.
//! Each of them must be unable to block its producer and unable to flood the channel.

use vstd::prelude::*;

verus! {

/// Capacity of the render task's input channel.
pub const GUI_CHANNEL_CAP: u64 = 64;

/// Free slots the serial console insists on before it posts a wake token.
pub const SERIAL_WAKE_HEADROOM: u64 = 16;

/// What the serial console does after one received byte.
#[derive(Clone, Copy, Debug, PartialEq, Eq, Structural)]
pub enum SerialWake {
    /// The shell inbox was full: the byte was dropped (and counted there).
    RingFull,
    /// A full-screen app owns the render task; the byte waits in the inbox.
    AppOwnsScreen,
    /// The channel is too full to post without risking a block; the byte waits.
    NoHeadroom,
    /// A wake token is already in flight; its drain will take this byte too.
    AlreadyPending,
    /// Post one wake token (a heartbeat event) to the render task.
    PostWake,
}

/// The live occupancy of the channel, read off its send and receive ledgers.
pub open spec fn channel_depth(sent: u64, recv: u64) -> u64 {
    sent.wrapping_sub(recv)
}

/// The serial console's decision after one byte.
pub open spec fn serial_wake_spec(accepted: bool, app_active: bool, sent: u64, recv: u64, pending: bool) -> SerialWake {
    if !accepted {
        SerialWake::RingFull
    } else if app_active {
        SerialWake::AppOwnsScreen
    } else if channel_depth(sent, recv) + SERIAL_WAKE_HEADROOM >= GUI_CHANNEL_CAP {
        SerialWake::NoHeadroom
    } else if pending {
        SerialWake::AlreadyPending
    } else {
        SerialWake::PostWake
    }
}

/// Decides whether a byte the serial console just offered to the shell inbox (accepted
/// or not) posts a wake token to the render task, and returns the new value of the
/// "token pending" flag with the decision.
pub fn serial_to_shell(accepted: bool, app_active: bool, sent: u64, recv: u64, pending: bool) -> (r: (SerialWake, bool))
    requires
        channel_depth(sent, recv) + SERIAL_WAKE_HEADROOM <= u64::MAX,
    ensures
        r.0 == serial_wake_spec(accepted, app_active, sent, recv, pending),
        r.1 == (pending || r.0 == SerialWake::PostWake),
{
    if !accepted {
        return (SerialWake::RingFull, pending);
    }
    if app_active {
        return (SerialWake::AppOwnsScreen, pending);
    }
    let depth = sent.wrapping_sub(recv);
    if depth + SERIAL_WAKE_HEADROOM >= GUI_CHANNEL_CAP {
        return (SerialWake::NoHeadroom, pending);
    }
    if pending {
        (SerialWake::AlreadyPending, true)
    } else {
        (SerialWake::PostWake, true)
    }
}

/// While a wake token is outstanding no second one is ever posted, however many bytes
/// arrive: a serial storm costs the channel at most one slot.
pub proof fn lemma_one_token_outstanding(accepted: bool, app_active: bool, sent: u64, recv: u64)
    ensures
        serial_wake_spec(accepted, app_active, sent, recv, true) != SerialWake::PostWake,
{
}

/// A posted token always finds a free slot with headroom to spare, so the post cannot
/// block the serial producer.
pub proof fn lemma_post_never_blocks(accepted: bool, app_active: bool, sent: u64, recv: u64, pending: bool)
    requires
        serial_wake_spec(accepted, app_active, sent, recv, pending) == SerialWake::PostWake,
    ensures
        channel_depth(sent, recv) + 1 + SERIAL_WAKE_HEADROOM <= GUI_CHANNEL_CAP,
{
}

/// One pass of a periodic heartbeat: given the clock, the stamp of the last pulse and
/// the period, returns the new stamp and whether a pulse is posted. A due pulse re-bases
/// the stamp whether or not it is posted; it is posted only while no full-screen app
/// owns the render task.
pub fn strip_pulse(now: u64, last: u64, period: u64, app_active: bool) -> (r: (u64, bool))
    ensures
        now.wrapping_sub(last) >= period ==> r == (now, !app_active),
        now.wrapping_sub(last) < period ==> r == (last, false),
{
    if now.wrapping_sub(last) >= period {
        (now, !app_active)
    } else {
        (last, false)
    }
}

/// One wake of the metal status tick. If the app watchdog reports the full-screen app
/// wedged, the screen is handed back to the shell; the heartbeat is then posted only
/// when no app owns the screen. Returns the new app-owns-screen flag and whether to post.
pub fn status_tick(watchdog_fired: bool, app_active: bool) -> (r: (bool, bool))
    ensures
        r.0 == (app_active && !watchdog_fired),
        r.1 == !r.0,
{
    let active = if watchdog_fired { false } else { app_active };
    (active, !active)
}

/// The send and receive ledgers of a GUI channel, kept at its single send and receive
/// choke points so that their difference always reads the live occupancy.
#[derive(Clone, Copy, Debug, PartialEq, Eq, Structural)]
pub struct ChannelLedger {
    /// Events the channel accepted.
    pub sent: u64,
    /// Events taken out of the channel.
    pub recv: u64,
    /// Relative reports the consumer folded into the event in front of them (they left
    /// the channel, so they are also counted as received).
    pub folded: u64,
}

/// Charges an offer's answer: only an accepted event counts as sent.
pub fn ledger_offer(l: ChannelLedger, accepted: bool) -> (r: ChannelLedger)
    ensures
        r == (if accepted { ChannelLedger { sent: l.sent.wrapping_add(1), ..l } } else { l }),
{
    if accepted { ChannelLedger { sent: l.sent.wrapping_add(1), ..l } } else { l }
}

/// Charges one receive; a folded receive is also counted as folded.
pub fn ledger_recv(l: ChannelLedger, folded: bool) -> (r: ChannelLedger)
    ensures
        r.sent == l.sent,
        r.recv == l.recv.wrapping_add(1),
        r.folded == (if folded { l.folded.wrapping_add(1) } else { l.folded }),
{
    ChannelLedger {
        sent: l.sent,
        recv: l.recv.wrapping_add(1),
        folded: if folded { l.folded.wrapping_add(1) } else { l.folded },
    }
}

/// The live occupancy the depth witness prints.
pub fn ledger_depth(l: ChannelLedger) -> (r: u64)
    ensures
        r == channel_depth(l.sent, l.recv),
{
    l.sent.wrapping_sub(l.recv)
}

/// A refused offer leaves the occupancy reading unchanged; an accepted one raises it by
/// one and a receive lowers it by one (modulo the counters' width).
pub proof fn lemma_ledger_tracks_occupancy(l: ChannelLedger)
    requires
        l.recv <= l.sent < u64::MAX,
    ensures
        channel_depth(l.sent.wrapping_add(1), l.recv) == channel_depth(l.sent, l.recv) + 1,
        l.recv < l.sent ==> channel_depth(l.sent, l.recv.wrapping_add(1)) == channel_depth(l.sent, l.recv) - 1,
{
}

} // verus!
