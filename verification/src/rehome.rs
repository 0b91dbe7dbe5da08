//! Re-homing the render role off a core the compositor's lock steal has declared dead.
//!
//! The render service is the only consumer of the GUI channel. When its core parks for
//! good, the role is moved to a live core picked by the placement authority, never onto
//! a core already known to be dead, and an owner epoch is bumped so that a stale render
//! instance that ever wakes up retires instead of becoming a second consumer.

use vstd::prelude::*;

verus! {

/// The role bookkeeping the device-service pass keeps across deaths.
#[derive(Debug, Clone, Copy, PartialEq, Eq, Structural)]
pub struct RoleState {
    /// One bit per core (below 64) the steal has declared dead this boot.
    pub dead_mask: u64,
    /// The core currently carrying the render role (`usize::MAX` before the handoff).
    pub role_cpu: usize,
    /// The render role's owner epoch, bumped once per re-home.
    pub epoch: u64,
    /// Set across the spawn of a rescue render instance; the instance consumes it.
    pub rescue_pending: bool,
}

/// What the re-home pass did.
#[derive(Debug, Clone, Copy, PartialEq, Eq, Structural)]
pub enum RehomeOutcome {
    /// No core was declared dead since the last pass.
    NothingOwed,
    /// A core died but did not carry the render role; it and its window are lost.
    NotCarried { dead: usize, role: usize },
    /// The render role was on the dead core and no live core other than the service
    /// core can take it; the role stays down.
    Declined { dead: usize },
    /// The render role moves to `rescue`; a rescue render instance is spawned there.
    Rehomed { dead: usize, rescue: usize },
}

/// The bit of core `c` in a dead mask.
pub open spec fn core_bit(c: usize) -> u64 {
    1u64 << (c as u64)
}

/// Whether core `c` is recorded dead in `mask`.
pub open spec fn is_dead(mask: u64, c: usize) -> bool {
    c < 64 && mask & core_bit(c) != 0
}

/// The dead mask after core `dead` is declared dead (cores at or above 64 have no bit).
pub open spec fn mark_dead_spec(mask: u64, dead: usize) -> u64 {
    if dead < 64 { mask | core_bit(dead) } else { mask }
}

/// The first acceptable answer of the placement authority: answers are scanned in
/// order, an answer that names a core recorded dead (or one with no bit) is skipped,
/// and the first `None` (pool exhausted) ends the scan with no rescue.
pub open spec fn pick_rescue_spec(answers: Seq<Option<usize>>, mask: u64) -> Option<usize>
    decreases answers.len(),
{
    if answers.len() == 0 {
        None
    } else {
        match answers[0] {
            None => None,
            Some(c) => if c < 64 && mask & core_bit(c) == 0 {
                Some(c)
            } else {
                pick_rescue_spec(answers.drop_first(), mask)
            },
        }
    }
}

/// Records core `dead` in the dead mask.
pub fn mark_dead(mask: u64, dead: usize) -> (r: u64)
    ensures
        r == mark_dead_spec(mask, dead),
{
    if dead < 64 {
        mask | (1u64 << (dead as u64))
    } else {
        mask
    }
}

/// Scans the placement authority's answers for a rescue core.
pub fn pick_rescue(answers: &Vec<Option<usize>>, mask: u64) -> (r: Option<usize>)
    ensures
        r == pick_rescue_spec(answers@, mask),
{
    let mut i: usize = 0;
    assert(answers@.subrange(0, answers@.len() as int) =~= answers@);
    while i < answers.len()
        invariant
            i <= answers.len(),
            pick_rescue_spec(answers@, mask) == pick_rescue_spec(answers@.subrange(i as int, answers@.len() as int), mask),
        decreases answers.len() - i,
    {
        let ghost rest = answers@.subrange(i as int, answers@.len() as int);
        assert(rest.drop_first() =~= answers@.subrange(i + 1, answers@.len() as int));
        match answers[i] {
            Some(c) => {
                if c < 64 && mask & (1u64 << (c as u64)) == 0 {
                    return Some(c);
                }
            },
            None => {
                return None;
            },
        }
        i = i + 1;
    }
    assert(answers@.subrange(i as int, answers@.len() as int).len() == 0);
    None
}

/// Whether a re-home pass must ask the placement authority for a rescue core: only when
/// a core died and it carried the render role (any other death re-homes nothing).
pub fn rehome_needs_scan(state: &RoleState, dead: Option<usize>) -> (r: bool)
    ensures
        r == (dead matches Some(d) && state.role_cpu == d),
{
    match dead {
        Some(d) => state.role_cpu == d,
        None => false,
    }
}

/// One re-home pass. `dead` is the core the compositor reported dead since the last
/// pass (taken, so each death is seen once); `answers` are the placement authority's
/// worker-core answers for slots 0, 1, 2, ... in order.
pub fn render_rehome(state: &mut RoleState, dead: Option<usize>, answers: &Vec<Option<usize>>) -> (r: RehomeOutcome)
    ensures
        dead is None ==> r == RehomeOutcome::NothingOwed && *final(state) == *old(state),
        dead matches Some(d) ==> final(state).dead_mask == mark_dead_spec(old(state).dead_mask, d),
        dead matches Some(d) ==> (old(state).role_cpu != d <==> r == (RehomeOutcome::NotCarried { dead: d, role: old(state).role_cpu })),
        dead matches Some(d) ==> (old(state).role_cpu == d && pick_rescue_spec(answers@, mark_dead_spec(old(state).dead_mask, d)) is None
            <==> r == (RehomeOutcome::Declined { dead: d })),
        dead matches Some(d) ==> (old(state).role_cpu == d && pick_rescue_spec(answers@, mark_dead_spec(old(state).dead_mask, d)) is Some
            <==> r == (RehomeOutcome::Rehomed { dead: d, rescue: pick_rescue_spec(answers@, mark_dead_spec(old(state).dead_mask, d))->0 })),
        r matches RehomeOutcome::Rehomed { dead: d, rescue } ==> final(state).role_cpu == rescue
            && final(state).epoch == old(state).epoch.wrapping_add(1)
            && final(state).rescue_pending,
        !(r is Rehomed) ==> final(state).role_cpu == old(state).role_cpu
            && final(state).epoch == old(state).epoch
            && final(state).rescue_pending == old(state).rescue_pending,
{
    let d = match dead {
        None => return RehomeOutcome::NothingOwed,
        Some(d) => d,
    };
    state.dead_mask = mark_dead(state.dead_mask, d);
    if state.role_cpu != d {
        return RehomeOutcome::NotCarried { dead: d, role: state.role_cpu };
    }
    match pick_rescue(answers, state.dead_mask) {
        None => RehomeOutcome::Declined { dead: d },
        Some(rescue) => {
            state.epoch = state.epoch.wrapping_add(1);
            state.role_cpu = rescue;
            state.rescue_pending = true;
            RehomeOutcome::Rehomed { dead: d, rescue }
        },
    }
}

/// Whether a render instance that entered with `my_epoch` has been superseded.
pub open spec fn superseded_spec(my_epoch: u64, current_epoch: u64) -> bool {
    my_epoch != current_epoch
}

/// A render instance entered with `my_epoch`; it has been superseded, and must retire
/// without touching the channel, once the role's epoch has moved on.
pub fn superseded(my_epoch: u64, current_epoch: u64) -> (r: bool)
    ensures
        r == superseded_spec(my_epoch, current_epoch),
{
    my_epoch != current_epoch
}

/// A render instance consumes the rescue flag on entry: a rescue instance does not mint
/// a second shell window.
pub fn take_rescue(state: &mut RoleState) -> (r: bool)
    ensures
        r == old(state).rescue_pending,
        *final(state) == (RoleState { rescue_pending: false, ..*old(state) }),
{
    let r = state.rescue_pending;
    state.rescue_pending = false;
    r
}

/// Whatever the placement authority answers, the rescue core it yields is a core with a
/// bit that is not recorded dead.
pub proof fn lemma_rescue_is_live(answers: Seq<Option<usize>>, mask: u64)
    ensures
        pick_rescue_spec(answers, mask) matches Some(c) ==> c < 64 && !is_dead(mask, c),
    decreases answers.len(),
{
    if answers.len() > 0 {
        lemma_rescue_is_live(answers.drop_first(), mask);
    }
}

/// A re-home never lands the render role back on the core that just died.
pub proof fn lemma_rescue_is_not_the_corpse(answers: Seq<Option<usize>>, mask: u64, dead: usize)
    ensures
        pick_rescue_spec(answers, mark_dead_spec(mask, dead)) matches Some(c) ==> c != dead,
{
    lemma_rescue_is_live(answers, mark_dead_spec(mask, dead));
    if dead < 64 {
        let d = dead as u64;
        assert((mask | (1u64 << d)) & (1u64 << d) != 0) by (bit_vector)
            requires d < 64;
    }
}

/// A core once recorded dead stays recorded dead across later deaths.
pub proof fn lemma_dead_stays_dead(mask: u64, dead: usize, c: usize)
    requires
        is_dead(mask, c),
    ensures
        is_dead(mark_dead_spec(mask, dead), c),
{
    if dead < 64 {
        let d = dead as u64;
        let cc = c as u64;
        assert((mask & (1u64 << cc)) != 0 ==> ((mask | (1u64 << d)) & (1u64 << cc)) != 0) by (bit_vector)
            requires d < 64, cc < 64;
    }
}

/// After a re-home, a render instance that captured the previous epoch is superseded
/// and retires, while the instance spawned for the new epoch is not; a pass that did not
/// re-home supersedes nobody.
pub proof fn lemma_rehome_retires_previous_instance(old_state: RoleState, new_state: RoleState, rehomed: bool)
    requires
        rehomed ==> new_state.epoch == old_state.epoch.wrapping_add(1),
        !rehomed ==> new_state.epoch == old_state.epoch,
    ensures
        superseded_spec(old_state.epoch, new_state.epoch) == rehomed,
        !superseded_spec(new_state.epoch, new_state.epoch),
{
}

/// A superseded render instance stays superseded: after any number of later re-homes
/// (fewer than the epoch counter's period) the role's epoch is still not the one it
/// captured, so its retirement check keeps firing.
pub proof fn lemma_superseded_for_good(epoch: u64, rehomes: nat)
    requires
        1 <= rehomes < 0x1_0000_0000_0000_0000,
    ensures
        superseded_spec(epoch, ((epoch + rehomes) % 0x1_0000_0000_0000_0000) as u64),
{
    let m: int = 0x1_0000_0000_0000_0000;
    let t: int = epoch + rehomes;
    if t < m {
        assert(t % m == t) by (nonlinear_arith)
            requires 0 <= t < m;
    } else {
        assert(t % m == t - m) by (nonlinear_arith)
            requires m <= t < 2 * m;
    }
}

/// Whether one answer of the placement authority names a usable rescue core: a core
/// below 64 whose bit is clear in the dead mask.
pub open spec fn usable_answer(a: Option<usize>, mask: u64) -> bool {
    a matches Some(c) && c < 64 && mask & core_bit(c) == 0
}

/// The rescue scan returns the first usable answer that comes before the first `None`
/// (pool exhausted): if answer `i` is usable and every earlier answer is a core that is
/// not usable, the scan returns answer `i`; and whatever it returns is such an answer.
/// An exhausted pool later in the list never hides an earlier live core.
pub proof fn lemma_rescue_is_first_usable(answers: Seq<Option<usize>>, mask: u64)
    ensures
        forall|i: int| 0 <= i < answers.len() && usable_answer(#[trigger] answers[i], mask)
            && (forall|j: int| 0 <= j < i ==> answers[j] is Some && !usable_answer(answers[j], mask))
            ==> pick_rescue_spec(answers, mask) == answers[i],
        pick_rescue_spec(answers, mask) matches Some(c) ==> exists|i: int| 0 <= i < answers.len()
            && #[trigger] answers[i] == Some(c) && usable_answer(answers[i], mask)
            && (forall|j: int| 0 <= j < i ==> answers[j] is Some && !usable_answer(answers[j], mask)),
    decreases answers.len(),
{
    if answers.len() > 0 {
        let t = answers.drop_first();
        lemma_rescue_is_first_usable(t, mask);
        assert forall|i: int| 0 <= i < answers.len() && usable_answer(#[trigger] answers[i], mask)
            && (forall|j: int| 0 <= j < i ==> answers[j] is Some && !usable_answer(answers[j], mask))
            implies pick_rescue_spec(answers, mask) == answers[i] by {
            if i > 0 {
                assert(answers[0] is Some && !usable_answer(answers[0], mask));
                assert(t[i - 1] == answers[i]);
                assert forall|j: int| 0 <= j < i - 1 implies t[j] is Some && !usable_answer(t[j], mask) by {
                    assert(t[j] == answers[j + 1]);
                }
                assert(usable_answer(t[i - 1], mask));
            }
        }
        if pick_rescue_spec(answers, mask) is Some {
            let c = pick_rescue_spec(answers, mask)->0;
            if usable_answer(answers[0], mask) {
                assert(answers[0] == Some(c));
            } else {
                assert(answers[0] is Some);
                assert(pick_rescue_spec(t, mask) == Some(c));
                let k = choose|k: int| 0 <= k < t.len() && #[trigger] t[k] == Some(c) && usable_answer(t[k], mask)
                    && (forall|j: int| 0 <= j < k ==> t[j] is Some && !usable_answer(t[j], mask));
                assert(answers[k + 1] == t[k]);
                assert forall|j: int| 0 <= j < k + 1 implies answers[j] is Some && !usable_answer(answers[j], mask) by {
                    if j > 0 {
                        assert(answers[j] == t[j - 1]);
                    }
                }
            }
        }
    }
}

} // verus!
