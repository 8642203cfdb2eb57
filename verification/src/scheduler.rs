//! The scheduler: a table of processes, the index of the process whose
//! context is currently loaded, and the model of the CPU's live register
//! state. `tick` is called once per timer interrupt and performs the
//! preemption decision: visit the table in cyclic order starting after the
//! loaded process, skip Stopped processes, and switch to the first Running
//! one; if none is Running the tick is an idle no-op.

use crate::process::{Context, Process, State};
use vstd::prelude::*;

verus! {

/// Largest number of processes the table will hold.
pub const MAX_PROCESSES: usize = 0x1000_0000;

/// The scheduler's exclusive state: the process table, which table slot (if
/// any) owns the currently loaded context, and the model of the CPU's live
/// registers.
pub struct Scheduler {
    pub table: Vec<Process>,
    pub active: Option<usize>,
    pub cpu: Context,
}

/// Some process in the table is eligible for CPU time.
pub open spec fn has_running(t: Seq<Process>) -> bool {
    exists|i: int| 0 <= i < t.len() && t[i].state is Running
}

/// The table slot reached `m` steps after slot `s0`, wrapping around the
/// table once. Well-formed for `0 <= s0 <= len` and `0 <= m < len`.
pub open spec fn slot(len: int, s0: int, m: int) -> int {
    if s0 + m < len {
        s0 + m
    } else {
        s0 + m - len
    }
}

/// How many steps after slot `s0` the cyclic scan reaches slot `j`.
pub open spec fn offset_of(len: int, s0: int, j: int) -> int {
    if j >= s0 {
        j - s0
    } else {
        j + len - s0
    }
}

/// The cyclic scan starting at slot `s0` finds its first Running process
/// exactly `m` steps in.
pub open spec fn found_at(t: Seq<Process>, s0: int, m: int) -> bool {
    &&& 0 <= m < t.len()
    &&& t[slot(t.len() as int, s0, m)].state is Running
    &&& forall|k: int|
        #![trigger slot(t.len() as int, s0, k)]
        0 <= k < m ==> !(t[slot(t.len() as int, s0, k)].state is Running)
}

/// The slot at which the cyclic scan of a tick begins: one past the loaded
/// process, or the start of the table when nothing is loaded.
pub open spec fn spec_start(s: Scheduler) -> int {
    match s.active {
        Some(i) => i as int + 1,
        None => 0,
    }
}

/// Table slot `i` owns the currently loaded context.
pub open spec fn is_loaded(s: Scheduler, i: int) -> bool {
    &&& 0 <= i < s.table@.len()
    &&& s.active == Some(i as usize)
}

/// A completed context switch from the state `pre` to the Running process
/// in slot `j`: the outgoing process's context was saved, the incoming
/// process's context was restored into the CPU, slot `j` is now loaded, and
/// no identity, name or execution state changed.
pub open spec fn switched_to(pre: Scheduler, post: Scheduler, j: int) -> bool {
    let t = pre.table@;
    &&& 0 <= j < t.len()
    &&& post.active == Some(j as usize)
    &&& post.table@.len() == t.len()
    &&& forall|i: int|
        0 <= i < t.len() ==> {
            &&& (#[trigger] post.table@[i]).id == t[i].id
            &&& post.table@[i].name == t[i].name
            &&& post.table@[i].state == t[i].state
        }
    &&& forall|i: int|
        0 <= i < t.len() && pre.active != Some(i as usize) ==> (#[trigger] post.table@[i]).context
            == t[i].context
    &&& (pre.active matches Some(a) ==> post.table@[a as int].context == pre.cpu)
    &&& post.cpu == (if pre.active == Some(j as usize) {
        pre.cpu
    } else {
        t[j].context
    })
}

/// Everything `tick` is allowed to do: either no process is Running and the
/// state is untouched, or the scan found a Running process and exactly the
/// context switch to it happened.
pub open spec fn tick_post(pre: Scheduler, post: Scheduler) -> bool {
    let t = pre.table@;
    let s0 = spec_start(pre);
    &&& ((forall|m: int| !found_at(t, s0, m)) ==> post == pre)
    &&& forall|m: int|
        #[trigger] found_at(t, s0, m) ==> switched_to(pre, post, slot(t.len() as int, s0, m))
}

/// A scan cannot find two different first Running slots.
proof fn lemma_found_at_unique(t: Seq<Process>, s0: int, m1: int, m2: int)
    requires
        found_at(t, s0, m1),
        found_at(t, s0, m2),
    ensures
        m1 == m2,
{
    if m1 < m2 {
        assert(!(t[slot(t.len() as int, s0, m1)].state is Running));
    } else if m2 < m1 {
        assert(!(t[slot(t.len() as int, s0, m2)].state is Running));
    }
}

impl Scheduler {
    /// The table is small enough to scan, the loaded slot (if any) exists,
    /// and process identifiers are unique.
    pub open spec fn wf(self) -> bool {
        &&& self.table@.len() <= MAX_PROCESSES
        &&& (self.active matches Some(a) ==> (a as int) < self.table@.len())
        &&& forall|i: int, j: int|
            0 <= i < j < self.table@.len() ==> (#[trigger] self.table@[i]).id != (
            #[trigger] self.table@[j]).id
    }

    /// An empty scheduler: no processes, nothing loaded, zeroed CPU model.
    pub fn new() -> (s: Scheduler)
        ensures
            s.wf(),
            s.table@.len() == 0,
            s.active is None,
            s.cpu.is_zeroed(),
    {
        Scheduler { table: Vec::new(), active: None, cpu: Context::default() }
    }

    /// Add a process to the table. The process is rejected — and the
    /// scheduler left untouched — exactly when the table is full or another
    /// process already carries the same identifier.
    pub fn add(&mut self, process: Process) -> (added: bool)
        requires
            old(self).wf(),
        ensures
            final(self).wf(),
            added == (old(self).table@.len() < MAX_PROCESSES && forall|i: int|
                0 <= i < old(self).table@.len() ==> (#[trigger] old(self).table@[i]).id
                    != process.id),
            added ==> final(self).table@ == old(self).table@.push(process),
            added ==> final(self).active == old(self).active && final(self).cpu == old(self).cpu,
            !added ==> *final(self) == *old(self),
    {
        let ghost pre = *old(self);
        let len = self.table.len();
        if len >= MAX_PROCESSES {
            return false;
        }
        let mut i: usize = 0;
        while i < len
            invariant
                i <= len,
                len == self.table@.len(),
                pre == *old(self),
                pre.wf(),
                *self == pre,
                forall|k: int| 0 <= k < i ==> (#[trigger] self.table@[k]).id != process.id,
            decreases len - i,
        {
            if self.table[i].get_id() == process.id {
                return false;
            }
            i += 1;
        }
        self.table.push(process);
        true
    }

    /// Replace the execution state of the process with the given
    /// identifier; every other process, the loaded slot and the CPU model
    /// are untouched. Returns whether such a process exists.
    pub fn set_state(&mut self, id: u64, state: State) -> (found: bool)
        requires
            old(self).wf(),
        ensures
            final(self).wf(),
            found == exists|i: int|
                0 <= i < old(self).table@.len() && (#[trigger] old(self).table@[i]).id == id,
            final(self).table@.len() == old(self).table@.len(),
            final(self).active == old(self).active,
            final(self).cpu == old(self).cpu,
            forall|i: int|
                0 <= i < old(self).table@.len() && (#[trigger] old(self).table@[i]).id != id
                    ==> final(self).table@[i] == old(self).table@[i],
            forall|i: int|
                0 <= i < old(self).table@.len() && (#[trigger] old(self).table@[i]).id == id ==> {
                    &&& final(self).table@[i].id == old(self).table@[i].id
                    &&& final(self).table@[i].name == old(self).table@[i].name
                    &&& final(self).table@[i].context == old(self).table@[i].context
                    &&& final(self).table@[i].state == state
                },
    {
        let ghost pre = *old(self);
        let len = self.table.len();
        let mut i: usize = 0;
        while i < len
            invariant
                i <= len,
                len == self.table@.len(),
                pre == *old(self),
                pre.wf(),
                *self == pre,
                forall|k: int| 0 <= k < i ==> (#[trigger] self.table@[k]).id != id,
            decreases len - i,
        {
            if self.table[i].get_id() == id {
                proof {
                    assert(pre.table@[i as int].id == id);
                }
                self.table[i].set_state(state);
                return true;
            }
            i += 1;
        }
        false
    }

    /// Identifier of the process whose context is currently loaded, if any.
    pub fn get_active_id(&self) -> (r: Option<u64>)
        requires
            self.wf(),
        ensures
            match self.active {
                Some(i) => r == Some(self.table@[i as int].id),
                None => r is None,
            },
    {
        match self.active {
            Some(i) => Some(self.table[i].get_id()),
            None => None,
        }
    }

    /// The slot of the first Running process reached by a cyclic scan
    /// starting at slot `s0`, or None when no process is Running.
    fn find_next(table: &Vec<Process>, s0: usize) -> (r: Option<usize>)
        requires
            s0 <= table@.len(),
            table@.len() <= MAX_PROCESSES,
        ensures
            match r {
                Some(j) => 0 <= j < table@.len() && found_at(
                    table@,
                    s0 as int,
                    offset_of(table@.len() as int, s0 as int, j as int),
                ),
                None => forall|m: int| !found_at(table@, s0 as int, m),
            },
    {
        let len = table.len();
        let mut m: usize = 0;
        let mut res: Option<usize> = None;
        while m < len
            invariant_except_break
                res is None,
                m <= len,
                s0 <= len,
                len == table@.len(),
                len <= MAX_PROCESSES,
                forall|k: int|
                    #![trigger slot(len as int, s0 as int, k)]
                    0 <= k < m ==> !(table@[slot(len as int, s0 as int, k)].state is Running),
            ensures
                match res {
                    Some(j) => 0 <= j < len && found_at(
                        table@,
                        s0 as int,
                        offset_of(len as int, s0 as int, j as int),
                    ),
                    None => forall|m2: int| !found_at(table@, s0 as int, m2),
                },
            decreases len - m,
        {
            let mut idx = s0 + m;
            if idx >= len {
                idx -= len;
            }
            assert(idx as int == slot(len as int, s0 as int, m as int));
            if table[idx].state == State::Running {
                res = Some(idx);
                assert(offset_of(len as int, s0 as int, idx as int) == m as int);
                break;
            }
            m += 1;
        }
        res
    }

    /// One timer tick: decide whether to preempt, and if a Running process
    /// is found in cyclic order, save the outgoing context and restore the
    /// incoming one. `tick` never changes any process's execution state.
    pub fn tick(&mut self)
        requires
            old(self).wf(),
        ensures
            final(self).wf(),
            tick_post(*old(self), *final(self)),
    {
        let ghost pre = *old(self);
        let ghost t = pre.table@;
        let len = self.table.len();
        let s0 = match self.active {
            Some(i) => i + 1,
            None => 0,
        };
        let next = Self::find_next(&self.table, s0);
        proof {
            assert(s0 as int == spec_start(pre));
        }
        match next {
            None => {
                assert(forall|m: int| !found_at(t, spec_start(pre), m));
            },
            Some(j) => {
                let ghost m0 = offset_of(len as int, s0 as int, j as int);
                assert(slot(len as int, s0 as int, m0) == j as int);
                let cpu_now = self.cpu;
                match self.active {
                    Some(a) => {
                        self.table[a].save_context(&cpu_now);
                    },
                    None => {},
                }
                Process::restore_context(&self.table[j], &mut self.cpu);
                self.active = Some(j);
                assert(switched_to(pre, *self, j as int));
                assert forall|m: int| found_at(t, s0 as int, m) implies switched_to(
                    pre,
                    *self,
                    slot(len as int, s0 as int, m),
                ) by {
                    lemma_found_at_unique(t, s0 as int, m, m0);
                }
                assert(found_at(t, s0 as int, m0));
            },
        }
    }
}

/// Law: at most one process owns the currently loaded context at any
/// instant. The loaded context is represented by at most one table slot, so
/// two distinct processes can never both be marked active.
pub proof fn lemma_at_most_one_loaded(s: Scheduler, i: int, j: int)
    requires
        s.wf(),
        is_loaded(s, i),
        is_loaded(s, j),
    ensures
        i == j,
{
}

/// Law: a tick over a table with no Running process performs no context
/// swap and changes nothing at all.
pub proof fn lemma_tick_idle(pre: Scheduler, post: Scheduler)
    requires
        pre.wf(),
        !has_running(pre.table@),
        tick_post(pre, post),
    ensures
        post == pre,
{
    let t = pre.table@;
    let s0 = spec_start(pre);
    assert forall|m: int| !found_at(t, s0, m) by {
        if found_at(t, s0, m) {
            let sl = slot(t.len() as int, s0, m);
            assert(0 <= sl < t.len());
            assert(has_running(t));
        }
    }
}

/// Law: a tick over a table whose only Running process is the one already
/// loaded returns control to that same process — the loaded slot and the
/// CPU registers are exactly what they were.
pub proof fn lemma_tick_single_running(pre: Scheduler, post: Scheduler, i: int)
    requires
        pre.wf(),
        0 <= i < pre.table@.len(),
        pre.table@[i].state is Running,
        forall|j: int|
            0 <= j < pre.table@.len() && j != i ==> !((#[trigger] pre.table@[j]).state
                is Running),
        pre.active == Some(i as usize),
        tick_post(pre, post),
    ensures
        post.active == pre.active,
        post.cpu == pre.cpu,
{
    let t = pre.table@;
    let len = t.len() as int;
    let s0 = spec_start(pre);
    let m0 = len - 1;
    assert(s0 == i + 1);
    assert(slot(len, s0, m0) == i);
    assert forall|k: int|
        #![trigger slot(len, s0, k)]
        0 <= k < m0 implies !(t[slot(len, s0, k)].state is Running) by {
        let sl = slot(len, s0, k);
        assert(0 <= sl < len);
        assert(sl != i);
    }
    assert(found_at(t, s0, m0));
    assert(switched_to(pre, post, i));
}

} // verus!
