//! The daemon's table of the child processes it spawned: what it tracks of
//! each, and the lifecycle events it publishes. Spawning, killing and
//! polling the processes themselves is left to the caller.
use vstd::prelude::*;
use vstd::string::*;

use crate::ids::{format_id, new_id, uuid_text};

verus! {

/// A followed child process.
#[derive(Debug, Clone)]
pub struct TrackedProcess {
    pub id: u128,
    pub pid: u32,
    pub command: String,
}

/// A process lifecycle event.
#[derive(Debug, Clone)]
pub enum ProcessEvent {
    Started { pid: u32, command: String },
    Exited { pid: u32, exit_code: i32 },
}

/// How a followed process was found when polled.
#[derive(Debug, Clone, Copy)]
pub enum PollResult {
    /// Still running.
    Running,
    /// It exited, with its exit code when it has one.
    Exited { code: Option<i32> },
    /// Its state could not be read.
    Unreadable,
}

pub struct ProcessManager {
    processes: Vec<TrackedProcess>,
}

pub open spec fn ids_of(ps: Seq<TrackedProcess>) -> Seq<u128> {
    ps.map_values(|p: TrackedProcess| p.id)
}

impl ProcessManager {
    /// The followed processes, in the order they were spawned.
    pub closed spec fn entries(&self) -> Seq<TrackedProcess> {
        self.processes@
    }

    /// Each process is followed once.
    pub open spec fn wf(&self) -> bool {
        ids_of(self.entries()).no_duplicates()
    }

    pub fn new() -> (r: Self)
        ensures
            r.wf(),
            r.entries().len() == 0,
    {
        let r = ProcessManager { processes: Vec::new() };
        assert(ids_of(r.entries()) =~= Seq::<u128>::empty());
        r
    }

    fn position(&self, id: u128) -> (r: Option<usize>)
        ensures
            match r {
                Some(i) => i < self.entries().len() && self.entries()[i as int].id == id,
                None => !ids_of(self.entries()).contains(id),
            },
    {
        let mut i: usize = 0;
        while i < self.processes.len()
            invariant
                i <= self.processes@.len(),
                forall|k: int| 0 <= k < i ==> self.processes@[k].id != id,
            decreases self.processes@.len() - i,
        {
            if self.processes[i].id == id {
                return Some(i);
            }
            i += 1;
        }
        proof {
            if ids_of(self.entries()).contains(id) {
                let k = choose|k: int| 0 <= k < ids_of(self.entries()).len() && ids_of(self.entries())[k] == id;
                assert(self.processes@[k].id == id);
            }
        }
        None
    }

    /// Track a process just spawned with `pid` for `command`, under a fresh
    /// id; its start is announced.
    pub fn spawned(&mut self, pid: u32, command: &str) -> (r: (u128, ProcessEvent))
        requires
            old(self).wf(),
        ensures
            final(self).wf(),
            r.1 matches ProcessEvent::Started { pid: p, command: c } && p == pid && c@ == command@,
            final(self).entries().len() >= 1,
            final(self).entries().last().id == r.0,
            final(self).entries().last().pid == pid,
            final(self).entries().last().command@ == command@,
            final(self).entries().drop_last() == old(self).entries().filter(other_than(r.0)),
    {
        let id = new_id();
        let ghost before = self.processes@;
        match self.position(id) {
            Some(i) => {
                self.processes.remove(i);
                proof {
                    lemma_remove_unique(before, i as int);
                }
            },
            None => {
                proof {
                    lemma_filter_absent(before, id);
                }
            },
        }
        let ghost rest = self.processes@;
        self.processes.push(TrackedProcess { id, pid, command: String::from_str(command) });
        proof {
            assert(self.processes@.drop_last() =~= rest);
            assert forall|a: int, b: int| 0 <= a < b < ids_of(self.processes@).len() implies ids_of(
                self.processes@,
            )[a] != ids_of(self.processes@)[b] by {
                if b == rest.len() {
                    assert(rest.filter(other_than(id)).contains(rest[a])) by {
                        assert(rest[a] == self.processes@[a]);
                        rest.lemma_filter_contains_rev(other_than(id), rest[a]);
                    }
                } else {
                    assert(ids_of(rest)[a] != ids_of(rest)[b]);
                }
            }
        }
        (id, ProcessEvent::Started { pid, command: String::from_str(command) })
    }

    fn take(&mut self, id: u128) -> (r: Option<TrackedProcess>)
        requires
            old(self).wf(),
        ensures
            final(self).wf(),
            match r {
                Some(p) => p.id == id && old(self).entries().contains(p),
                None => !ids_of(old(self).entries()).contains(id),
            },
            final(self).entries() == old(self).entries().filter(other_than(id)),
    {
        let ghost before = self.processes@;
        match self.position(id) {
            Some(i) => {
                let p = self.processes.remove(i);
                proof {
                    lemma_remove_unique(before, i as int);
                    assert(before.contains(p)) by {
                        assert(before[i as int] == p);
                    }
                }
                Some(p)
            },
            None => {
                proof {
                    lemma_filter_absent(before, id);
                }
                None
            },
        }
    }

    /// Stop tracking a process so that it can be killed; a process that is
    /// not followed cannot be terminated.
    pub fn terminate(&mut self, id: u128) -> (r: Result<TrackedProcess, String>)
        requires
            old(self).wf(),
        ensures
            final(self).wf(),
            final(self).entries() == old(self).entries().filter(other_than(id)),
            match r {
                Ok(p) => p.id == id && old(self).entries().contains(p),
                Err(m) => !ids_of(old(self).entries()).contains(id) && m@ == "No tracked process with id "@
                    + uuid_text(id),
            },
    {
        match self.take(id) {
            Some(p) => Ok(p),
            None => Err(String::from_str("No tracked process with id ").concat(format_id(id).as_str())),
        }
    }

    /// The followed processes as (id, pid, command).
    pub fn list(&self) -> (r: Vec<(u128, u32, String)>)
        ensures
            r@.len() == self.entries().len(),
            forall|k: int|
                0 <= k < r@.len() ==> (#[trigger] r@[k]).0 == self.entries()[k].id && r@[k].1
                    == self.entries()[k].pid && r@[k].2@ == self.entries()[k].command@,
    {
        let mut r: Vec<(u128, u32, String)> = Vec::new();
        let mut i: usize = 0;
        while i < self.processes.len()
            invariant
                i <= self.processes@.len(),
                r@.len() == i,
                forall|k: int|
                    0 <= k < i ==> (#[trigger] r@[k]).0 == self.processes@[k].id && r@[k].1
                        == self.processes@[k].pid && r@[k].2@ == self.processes@[k].command@,
            decreases self.processes@.len() - i,
        {
            let p = &self.processes[i];
            r.push((p.id, p.pid, p.command.clone()));
            i += 1;
        }
        r
    }

    /// Apply what polling a followed process found: one that exited stops
    /// being followed and its exit (code -1 when it has none) is announced;
    /// one whose state could not be read stops being followed silently; a
    /// running one stays.
    pub fn polled(&mut self, id: u128, found: PollResult) -> (r: Option<ProcessEvent>)
        requires
            old(self).wf(),
        ensures
            final(self).wf(),
            found is Running ==> final(self).entries() == old(self).entries() && r is None,
            !(found is Running) ==> final(self).entries() == old(self).entries().filter(other_than(id)),
            found is Unreadable ==> r is None,
            found matches PollResult::Exited { code } ==> match r {
                Some(ProcessEvent::Exited { pid, exit_code }) => exists|p: TrackedProcess|
                    #![trigger old(self).entries().contains(p)]
                    old(self).entries().contains(p) && p.id == id && p.pid == pid && exit_code == match code {
                        Some(c) => c as int,
                        None => -1int,
                    },
                Some(_) => false,
                None => !ids_of(old(self).entries()).contains(id),
            },
    {
        match found {
            PollResult::Running => None,
            PollResult::Unreadable => {
                let _ = self.take(id);
                None
            },
            PollResult::Exited { code } => {
                match self.take(id) {
                    Some(p) => {
                        let exit_code = match code {
                            Some(c) => c,
                            None => -1,
                        };
                        Some(ProcessEvent::Exited { pid: p.pid, exit_code })
                    },
                    None => None,
                }
            },
        }
    }
}

/// The exit announced for a process the daemon killed.
pub fn terminated_event(pid: u32) -> (r: ProcessEvent)
    ensures
        r matches ProcessEvent::Exited { pid: p, exit_code } && p == pid && exit_code == -1,
{
    ProcessEvent::Exited { pid, exit_code: -1 }
}

/// The processes other than `id`.
pub open spec fn other_than(id: u128) -> spec_fn(TrackedProcess) -> bool {
    |p: TrackedProcess| p.id != id
}

proof fn lemma_ids_drop_last(s: Seq<TrackedProcess>)
    requires
        s.len() > 0,
        ids_of(s).no_duplicates(),
    ensures
        ids_of(s.drop_last()) == ids_of(s).drop_last(),
        ids_of(s.drop_last()).no_duplicates(),
        !ids_of(s.drop_last()).contains(s.last().id),
{
    assert(ids_of(s.drop_last()) =~= ids_of(s).drop_last());
    if ids_of(s.drop_last()).contains(s.last().id) {
        let k = choose|k: int| 0 <= k < ids_of(s.drop_last()).len() && ids_of(s.drop_last())[k] == s.last().id;
        assert(ids_of(s)[k] == ids_of(s)[s.len() - 1]);
    }
}

proof fn lemma_filter_absent(s: Seq<TrackedProcess>, id: u128)
    requires
        !ids_of(s).contains(id),
    ensures
        s.filter(other_than(id)) == s,
    decreases s.len(),
{
    if s.len() == 0 {
        assert(s.filter(other_than(id)) =~= s) by {
            reveal(Seq::filter);
        }
    } else {
        let init = s.drop_last();
        assert(!ids_of(init).contains(id)) by {
            if ids_of(init).contains(id) {
                let k = choose|k: int| 0 <= k < ids_of(init).len() && ids_of(init)[k] == id;
                assert(ids_of(s)[k] == id);
            }
        }
        lemma_filter_absent(init, id);
        assert(ids_of(s)[s.len() - 1] == s.last().id);
        init.lemma_filter_push(s.last(), other_than(id));
        assert(init.push(s.last()) =~= s);
    }
}

proof fn lemma_remove_is_filter(s: Seq<TrackedProcess>, i: int)
    requires
        0 <= i < s.len(),
        ids_of(s).no_duplicates(),
    ensures
        s.remove(i) == s.filter(other_than(s[i].id)),
    decreases s.len(),
{
    let id = s[i].id;
    let init = s.drop_last();
    lemma_ids_drop_last(s);
    init.lemma_filter_push(s.last(), other_than(id));
    assert(init.push(s.last()) =~= s);
    if i == s.len() - 1 {
        lemma_filter_absent(init, id);
        assert(s.remove(i) =~= init);
    } else {
        lemma_remove_is_filter(init, i);
        assert(init[i] == s[i]);
        assert(ids_of(s)[s.len() - 1] != ids_of(s)[i]);
        assert(s.remove(i) =~= init.remove(i).push(s.last()));
    }
}

proof fn lemma_remove_unique(s: Seq<TrackedProcess>, i: int)
    requires
        0 <= i < s.len(),
        ids_of(s).no_duplicates(),
    ensures
        s.remove(i) == s.filter(other_than(s[i].id)),
        ids_of(s.remove(i)).no_duplicates(),
{
    lemma_remove_is_filter(s, i);
    let r = s.remove(i);
    assert forall|a: int, b: int| 0 <= a < b < ids_of(r).len() implies ids_of(r)[a] != ids_of(r)[b] by {
        let a2 = if a < i { a } else { a + 1 };
        let b2 = if b < i { b } else { b + 1 };
        assert(ids_of(r)[a] == ids_of(s)[a2]);
        assert(ids_of(r)[b] == ids_of(s)[b2]);
    }
}

} // verus!
