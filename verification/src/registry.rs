//! Fixed-capacity registry of tracked child PIDs and their exit statuses.
//!
//! One slot per tracked child: `pid` (0 = unused) and a `status` word that is
//! either a sentinel (`SLOT_EMPTY`, `SLOT_RUNNING`) or a concrete `waitpid`
//! status. A slot's status only ever moves forward — empty, to running, to a
//! concrete word — and a concrete word is never overwritten until the slot is
//! released; that first-observation-wins discipline is what lets a caller
//! still read the exit status of a child that a foreign SIGCHLD handler
//! reaped. The registry here is the sequential model of that array and every
//! transition on it; the surrounding program mirrors it in an array of
//! atomics so the signal handler can apply the same transitions
//! async-signal-safely.

use vstd::prelude::*;

verus! {

use crate::status::{SLOT_EMPTY, SLOT_RUNNING, is_sentinel, spec_exit_code, decode_exit_code};

/// Number of registry slots. A child spawned while every slot is claimed
/// goes untracked, which the wait protocol's fallback paths handle.
pub const MAX_TRACKED_PIDS: usize = 64;

/// One registry slot: a tracked PID (0 = unused) and its status word.
#[derive(Clone, Copy, Debug, PartialEq, Eq, Structural)]
pub struct PidSlot {
    pub pid: i32,
    pub status: i32,
}

impl PidSlot {
    /// A slot never holds a negative PID, and is unused exactly when its
    /// status is the empty sentinel.
    pub open spec fn wf(self) -> bool {
        self.pid >= 0 && (self.pid == 0 <==> self.status == SLOT_EMPTY)
    }

    /// An unused slot.
    pub fn new() -> (s: PidSlot)
        ensures
            s.pid == 0,
            s.status == SLOT_EMPTY,
    {
        PidSlot { pid: 0, status: SLOT_EMPTY }
    }
}

/// The first index at or after `i` whose slot holds `pid`, if any.
pub open spec fn first_slot_from(s: Seq<PidSlot>, pid: i32, i: int) -> Option<int>
    decreases s.len() - i,
{
    if i < 0 || i >= s.len() {
        None
    } else if s[i].pid == pid {
        Some(i)
    } else {
        first_slot_from(s, pid, i + 1)
    }
}

/// Some slot holds `pid`.
pub open spec fn tracks(s: Seq<PidSlot>, pid: i32) -> bool {
    first_slot_from(s, pid, 0) is Some
}

/// A well-formed registry: full capacity, well-formed slots, and no PID
/// claimed by two slots.
pub open spec fn reg_wf(s: Seq<PidSlot>) -> bool {
    &&& s.len() == MAX_TRACKED_PIDS
    &&& forall|i: int| 0 <= i < s.len() ==> (#[trigger] s[i]).wf()
    &&& forall|i: int, j: int|
        #![trigger s[i], s[j]]
        0 <= i < j < s.len() && s[i].pid == s[j].pid ==> s[i].pid == 0
}

/// The cached exit code for `pid`: the decoded status of its slot, or `None`
/// when the PID is untracked or its slot still holds a sentinel.
pub open spec fn spec_lookup(s: Seq<PidSlot>, pid: i32) -> Option<i32> {
    match first_slot_from(s, pid, 0) {
        Some(i) => if is_sentinel(s[i].status) {
            None
        } else {
            Some(spec_exit_code(s[i].status))
        },
        None => None,
    }
}

/// Registering claims the first unused slot, if any, for `pid`, marking it
/// running.
pub open spec fn spec_register(s: Seq<PidSlot>, pid: i32) -> Seq<PidSlot> {
    match first_slot_from(s, 0, 0) {
        Some(i) => s.update(i, (PidSlot { pid, status: SLOT_RUNNING })),
        None => s,
    }
}

/// Unregistering releases the slot of `pid`, if any.
pub open spec fn spec_unregister(s: Seq<PidSlot>, pid: i32) -> Seq<PidSlot> {
    match first_slot_from(s, pid, 0) {
        Some(i) => s.update(i, (PidSlot { pid: 0, status: SLOT_EMPTY })),
        None => s,
    }
}

/// Recording an exit stores the word into the slot of `pid` only while that
/// slot is still marked running: the first observation wins and a concrete
/// word is never overwritten.
pub open spec fn spec_record(s: Seq<PidSlot>, pid: i32, raw: i32) -> Seq<PidSlot> {
    match first_slot_from(s, pid, 0) {
        Some(i) => if s[i].status == SLOT_RUNNING {
            s.update(i, (PidSlot { pid, status: raw }))
        } else {
            s
        },
        None => s,
    }
}

/// What `first_slot_from` returns: the found index holds `pid` and no
/// earlier index at or after the start does; a miss means no index does.
pub proof fn lemma_first_slot_from_props(s: Seq<PidSlot>, pid: i32, i: int)
    requires
        0 <= i,
    ensures
        match first_slot_from(s, pid, i) {
            Some(k) => i <= k < s.len() && s[k].pid == pid && forall|j: int|
                i <= j < k ==> (#[trigger] s[j]).pid != pid,
            None => forall|j: int| i <= j < s.len() ==> (#[trigger] s[j]).pid != pid,
        },
    decreases s.len() - i,
{
    if i < s.len() && s[i].pid != pid {
        lemma_first_slot_from_props(s, pid, i + 1);
    }
}

/// A position that holds `pid`, with none before it, is the one
/// `first_slot_from` finds.
proof fn lemma_first_slot_is(s: Seq<PidSlot>, pid: i32, k: int)
    requires
        0 <= k < s.len(),
        s[k].pid == pid,
        forall|j: int| 0 <= j < k ==> (#[trigger] s[j]).pid != pid,
    ensures
        first_slot_from(s, pid, 0) == Some(k),
{
    lemma_first_slot_from_props(s, pid, 0);
    match first_slot_from(s, pid, 0) {
        Some(m) => {
            if m < k {
                assert(s[m].pid != pid);
            } else if m > k {
                assert(s[k].pid != pid);
            }
        },
        None => {
            assert(s[k].pid != pid);
        },
    }
}

/// With no position holding `pid`, `first_slot_from` finds none.
proof fn lemma_first_slot_none(s: Seq<PidSlot>, pid: i32)
    requires
        forall|j: int| 0 <= j < s.len() ==> (#[trigger] s[j]).pid != pid,
    ensures
        first_slot_from(s, pid, 0) is None,
{
    lemma_first_slot_from_props(s, pid, 0);
    match first_slot_from(s, pid, 0) {
        Some(m) => {
            assert(s[m].pid != pid);
        },
        None => {},
    }
}

/// In a well-formed registry a positive PID is claimed by one slot only.
proof fn lemma_unique_pid(s: Seq<PidSlot>, k: int)
    requires
        reg_wf(s),
        0 <= k < s.len(),
        s[k].pid > 0,
    ensures
        forall|j: int| 0 <= j < s.len() && j != k ==> (#[trigger] s[j]).pid != s[k].pid,
{
    assert forall|j: int| 0 <= j < s.len() && j != k implies (#[trigger] s[j]).pid != s[k].pid by {
        if s[j].pid == s[k].pid {
            if j < k {
                assert(s[j].pid == 0);
            } else {
                assert(s[k].pid == 0);
            }
        }
    }
}

/// Updating one slot keeps the registry well-formed, provided the new slot
/// is well-formed and claims no PID that another slot holds.
proof fn lemma_wf_update(s: Seq<PidSlot>, k: int, sl: PidSlot)
    requires
        reg_wf(s),
        0 <= k < s.len(),
        sl.wf(),
        sl.pid > 0 ==> forall|j: int|
            0 <= j < s.len() && j != k ==> (#[trigger] s[j]).pid != sl.pid,
    ensures
        reg_wf(s.update(k, sl)),
{
    let t = s.update(k, sl);
    assert forall|i: int| 0 <= i < t.len() implies (#[trigger] t[i]).wf() by {
        if i != k {
            assert(t[i] == s[i]);
        }
    }
    assert forall|i: int, j: int|
        #![trigger t[i], t[j]]
        0 <= i < j < t.len() && t[i].pid == t[j].pid implies t[i].pid == 0 by {
        if i != k && j != k {
            assert(t[i] == s[i] && t[j] == s[j]);
        } else if i == k {
            assert(t[j] == s[j]);
            if sl.pid > 0 {
                assert(s[j].pid != sl.pid);
            }
        } else {
            assert(t[i] == s[i]);
            if sl.pid > 0 {
                assert(s[i].pid != sl.pid);
            }
        }
    }
}

/// The process-global registry, modeled as a plain vector of slots.
pub struct PidRegistry {
    slots: Vec<PidSlot>,
}

impl View for PidRegistry {
    type V = Seq<PidSlot>;

    closed spec fn view(&self) -> Seq<PidSlot> {
        self.slots@
    }
}

impl PidRegistry {
    /// A registry of unused slots.
    pub fn new() -> (r: PidRegistry)
        ensures
            reg_wf(r@),
            forall|i: int|
                0 <= i < r@.len() ==> (#[trigger] r@[i]).pid == 0 && r@[i].status == SLOT_EMPTY,
    {
        let mut slots: Vec<PidSlot> = Vec::new();
        let mut k: usize = 0;
        while k < MAX_TRACKED_PIDS
            invariant
                slots@.len() == k,
                k <= MAX_TRACKED_PIDS,
                forall|i: int|
                    0 <= i < k ==> (#[trigger] slots@[i]).pid == 0 && slots@[i].status
                        == SLOT_EMPTY,
            decreases MAX_TRACKED_PIDS - k,
        {
            slots.push(PidSlot::new());
            k += 1;
        }
        PidRegistry { slots }
    }
}

/// Track `pid`: claim the first unused slot and mark it running. Returns
/// whether a slot was claimed; with every slot taken the PID simply goes
/// untracked.
pub fn register_pid(reg: &mut PidRegistry, pid: i32) -> (claimed: bool)
    requires
        reg_wf(old(reg)@),
        pid > 0,
        !tracks(old(reg)@, pid),
    ensures
        reg_wf(final(reg)@),
        final(reg)@ == spec_register(old(reg)@, pid),
        claimed <==> first_slot_from(old(reg)@, 0, 0) is Some,
        claimed ==> tracks(final(reg)@, pid) && spec_lookup(final(reg)@, pid) is None,
        !claimed ==> final(reg)@ == old(reg)@,
{
    let ghost s0 = reg@;
    let n = reg.slots.len();
    let mut k: usize = 0;
    while k < n
        invariant
            reg@ == s0,
            s0 == old(reg)@,
            n == s0.len(),
            k <= n,
            reg_wf(s0),
            pid > 0,
            !tracks(s0, pid),
            forall|j: int| 0 <= j < k ==> (#[trigger] s0[j]).pid != 0,
        decreases n - k,
    {
        if reg.slots[k].pid == 0 {
            reg.slots.set(k, PidSlot { pid, status: SLOT_RUNNING });
            proof {
                lemma_first_slot_is(s0, 0, k as int);
                lemma_first_slot_from_props(s0, pid, 0);
                lemma_wf_update(s0, k as int, (PidSlot { pid, status: SLOT_RUNNING }));
                assert forall|j: int| 0 <= j < k implies (#[trigger] reg@[j]).pid != pid by {
                    assert(reg@[j] == s0[j]);
                }
                lemma_first_slot_is(reg@, pid, k as int);
            }
            return true;
        }
        k += 1;
    }
    proof {
        lemma_first_slot_none(s0, 0);
    }
    false
}

/// Stop tracking `pid`: release its slot, if it has one.
pub fn unregister_pid(reg: &mut PidRegistry, pid: i32)
    requires
        reg_wf(old(reg)@),
        pid > 0,
    ensures
        reg_wf(final(reg)@),
        final(reg)@ == spec_unregister(old(reg)@, pid),
        !tracks(final(reg)@, pid),
{
    let ghost s0 = reg@;
    let n = reg.slots.len();
    let mut k: usize = 0;
    while k < n
        invariant
            reg@ == s0,
            s0 == old(reg)@,
            n == s0.len(),
            k <= n,
            reg_wf(s0),
            pid > 0,
            forall|j: int| 0 <= j < k ==> (#[trigger] s0[j]).pid != pid,
        decreases n - k,
    {
        if reg.slots[k].pid == pid {
            proof {
                lemma_first_slot_is(s0, pid, k as int);
                lemma_unique_pid(s0, k as int);
            }
            reg.slots.set(k, PidSlot { pid: 0, status: SLOT_EMPTY });
            proof {
                lemma_wf_update(s0, k as int, (PidSlot { pid: 0, status: SLOT_EMPTY }));
                assert forall|j: int| 0 <= j < reg@.len() implies (#[trigger] reg@[j]).pid != pid by {
                    if j != k {
                        assert(reg@[j] == s0[j]);
                    }
                }
                lemma_first_slot_none(reg@, pid);
            }
            return ;
        }
        k += 1;
    }
    proof {
        lemma_first_slot_none(s0, pid);
    }
}

/// The cached exit code of `pid`, decoded from its slot: `None` while the
/// child is untracked or still running.
pub fn lookup_cached_status(reg: &PidRegistry, pid: i32) -> (r: Option<i32>)
    ensures
        r == spec_lookup(reg@, pid),
{
    let n = reg.slots.len();
    let mut k: usize = 0;
    while k < n
        invariant
            n == reg@.len(),
            k <= n,
            forall|j: int| 0 <= j < k ==> (#[trigger] reg@[j]).pid != pid,
        decreases n - k,
    {
        if reg.slots[k].pid == pid {
            proof {
                lemma_first_slot_is(reg@, pid, k as int);
            }
            let raw = reg.slots[k].status;
            if raw == SLOT_RUNNING || raw == SLOT_EMPTY {
                return None;
            }
            return Some(decode_exit_code(raw));
        }
        k += 1;
    }
    proof {
        lemma_first_slot_none(reg@, pid);
    }
    None
}

/// Record a concrete exit status for `pid`, observed by the SIGCHLD handler
/// or a direct reap. Stores only while the slot is still marked running;
/// returns whether the word was stored.
pub fn record_exit_status(reg: &mut PidRegistry, pid: i32, raw: i32) -> (stored: bool)
    requires
        reg_wf(old(reg)@),
        pid > 0,
        !is_sentinel(raw),
    ensures
        reg_wf(final(reg)@),
        final(reg)@ == spec_record(old(reg)@, pid, raw),
        stored <==> (match first_slot_from(old(reg)@, pid, 0) {
            Some(i) => old(reg)@[i].status == SLOT_RUNNING,
            None => false,
        }),
        stored ==> spec_lookup(final(reg)@, pid) == Some(spec_exit_code(raw)),
        !stored ==> final(reg)@ == old(reg)@,
{
    let ghost s0 = reg@;
    let n = reg.slots.len();
    let mut k: usize = 0;
    while k < n
        invariant
            reg@ == s0,
            s0 == old(reg)@,
            n == s0.len(),
            k <= n,
            reg_wf(s0),
            pid > 0,
            !is_sentinel(raw),
            forall|j: int| 0 <= j < k ==> (#[trigger] s0[j]).pid != pid,
        decreases n - k,
    {
        if reg.slots[k].pid == pid {
            proof {
                lemma_first_slot_is(s0, pid, k as int);
                lemma_unique_pid(s0, k as int);
            }
            if reg.slots[k].status == SLOT_RUNNING {
                reg.slots.set(k, PidSlot { pid, status: raw });
                proof {
                    lemma_wf_update(s0, k as int, (PidSlot { pid, status: raw }));
                    assert forall|j: int| 0 <= j < k implies (#[trigger] reg@[j]).pid != pid by {
                        assert(reg@[j] == s0[j]);
                    }
                    lemma_first_slot_is(reg@, pid, k as int);
                }
                return true;
            }
            return false;
        }
        k += 1;
    }
    proof {
        lemma_first_slot_none(s0, pid);
    }
    false
}

/// The PIDs whose slots are still marked running, in slot order.
pub open spec fn running_in(s: Seq<PidSlot>) -> Seq<i32>
    decreases s.len(),
{
    if s.len() == 0 {
        Seq::empty()
    } else if s.last().pid > 0 && s.last().status == SLOT_RUNNING {
        running_in(s.drop_last()).push(s.last().pid)
    } else {
        running_in(s.drop_last())
    }
}

/// The tracked PIDs that have no exit status yet: the ones the SIGCHLD
/// handler's coalescing sweep probes with a non-blocking reap.
pub fn running_pids(reg: &PidRegistry) -> (v: Vec<i32>)
    ensures
        v@ == running_in(reg@),
{
    let mut v: Vec<i32> = Vec::new();
    let n = reg.slots.len();
    let mut k: usize = 0;
    while k < n
        invariant
            n == reg@.len(),
            k <= n,
            v@ == running_in(reg@.take(k as int)),
        decreases n - k,
    {
        let sl = reg.slots[k];
        if sl.pid > 0 && sl.status == SLOT_RUNNING {
            v.push(sl.pid);
        }
        proof {
            assert(reg@.take(k + 1).drop_last() =~= reg@.take(k as int));
            assert(reg@.take(k + 1).last() == reg@[k as int]);
        }
        k += 1;
    }
    proof {
        assert(reg@.take(reg@.len() as int) =~= reg@);
    }
    v
}

/// A slot's status only moves forward under the registry operations:
/// registering turns an empty status into running, recording turns a running
/// status into a concrete word, and unregistering is the only step that
/// writes the empty sentinel over anything.
pub proof fn lemma_slot_transitions(s: Seq<PidSlot>, pid: i32, raw: i32, i: int)
    requires
        reg_wf(s),
        0 <= i < s.len(),
        pid > 0,
        !is_sentinel(raw),
    ensures
        spec_register(s, pid)[i].status != s[i].status ==> s[i].status == SLOT_EMPTY
            && spec_register(s, pid)[i].status == SLOT_RUNNING,
        spec_record(s, pid, raw)[i].status != s[i].status ==> s[i].status == SLOT_RUNNING
            && !is_sentinel(spec_record(s, pid, raw)[i].status),
        spec_unregister(s, pid)[i].status != s[i].status ==> spec_unregister(s, pid)[i].status
            == SLOT_EMPTY,
{
    lemma_first_slot_from_props(s, 0, 0);
    lemma_first_slot_from_props(s, pid, 0);
}

/// A concrete status word is never overwritten: neither registering another
/// child nor recording an exit touches a slot that already holds one.
pub proof fn lemma_concrete_never_overwritten(s: Seq<PidSlot>, pid: i32, raw: i32, i: int)
    requires
        reg_wf(s),
        0 <= i < s.len(),
        pid > 0,
        !is_sentinel(raw),
        !is_sentinel(s[i].status),
    ensures
        spec_register(s, pid)[i] == s[i],
        spec_record(s, pid, raw)[i] == s[i],
{
    lemma_first_slot_from_props(s, 0, 0);
    lemma_first_slot_from_props(s, pid, 0);
}

} // verus!
