//! Core placement of the GUI services at handoff, and the serial-only echo loop.

use vstd::prelude::*;

verus! {

/// The x86 handoff's core split, as a value: the first and the last online application
/// processor when they differ.
pub open spec fn sched_split_spec(online: Seq<usize>) -> Option<(usize, usize)> {
    if online.len() >= 1 && online[0] != online.last() {
        Some((online[0], online.last()))
    } else {
        None
    }
}

/// The x86 handoff's core split: the render service on the first online application
/// processor and the input and device services on the last, or `None` when fewer than
/// two distinct cores are online (the BSP then keeps the inline GUI loop).
pub fn sched_split(online: &Vec<usize>) -> (r: Option<(usize, usize)>)
    ensures
        r == sched_split_spec(online@),
        online@.len() >= 1 && online@[0] != online@[online@.len() - 1]
            ==> r == Some((online@[0], online@[online@.len() - 1])),
        r is None <==> (online@.len() == 0 || online@[0] == online@[online@.len() - 1]),
{
    if online.len() == 0 {
        return None;
    }
    let render = online[0];
    let svc = online[online.len() - 1];
    if render != svc {
        Some((render, svc))
    } else {
        None
    }
}

/// The aarch64 handoff's cores: render on the first online secondary, input on the
/// last (the same core when only one came up), or `None` with no secondary online.
pub fn pi_service_cores(online: &Vec<usize>) -> (r: Option<(usize, usize)>)
    ensures
        online@.len() == 0 ==> r is None,
        online@.len() > 0 ==> r == Some((online@[0], online@.last())),
{
    if online.len() == 0 {
        None
    } else {
        Some((online[0], online[online.len() - 1]))
    }
}

/// The serial-only console's echo of one received byte: a carriage return echoes as
/// CR LF, anything else as itself.
pub fn echo_bytes(b: u8) -> (r: Vec<u8>)
    ensures
        b == 13 ==> r@ == seq![13u8, 10u8],
        b != 13 ==> r@ == seq![b],
{
    let mut v: Vec<u8> = Vec::new();
    if b == 13 {
        v.push(13);
        v.push(10);
    } else {
        v.push(b);
    }
    v
}

/// The x86 split never puts the render service and the device service (both takers of
/// the xHCI spinlock) on one core, and both land on cores that are online.
pub proof fn lemma_split_separates(online: Seq<usize>)
    ensures
        sched_split_spec(online) matches Some((render, svc)) ==> render != svc
            && online.contains(render) && online.contains(svc),
{
    if online.len() >= 1 {
        assert(online[0] == online[0]);
        assert(online[online.len() - 1] == online.last());
    }
}

/// The x86 split is offered exactly when two distinct cores are available at the ends of
/// the online list: it is `Some((first, last))` whenever the list is non-empty and its
/// first and last entries differ, and `None` exactly when the list is empty or they are
/// equal.
pub proof fn lemma_split_whenever_distinct(online: Seq<usize>)
    ensures
        online.len() >= 1 && online[0] != online[online.len() - 1]
            ==> sched_split_spec(online) == Some((online[0], online[online.len() - 1])),
        sched_split_spec(online) is None <==> (online.len() == 0 || online[0] == online[online.len() - 1]),
{
}

} // verus!
