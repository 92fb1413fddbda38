//! The process supervisor's bookkeeping: which processes are registered and
//! which of them hold a live child handle.
//!
//! Launching and killing children is work for the caller: the supervisor
//! decides whether a start or stop may proceed, says what to launch, and
//! records the outcome. An entry is Registered (no handle) or Running (a
//! handle); start moves it to Running, stop back to Registered.
use vstd::prelude::*;
use crate::address::{address_for, derive_address};
use crate::entities::{CommunicationMode, Process, ProcessId, clone_strings};
use crate::errors::OrchestrationError;
use crate::text::str_eq;

verus! {

/// What to launch for a process: the program, its arguments, an optional
/// working directory, and the one environment variable that carries its
/// address.
#[derive(Debug)]
pub struct LaunchSpec {
    pub program: String,
    pub args: Vec<String>,
    pub working_dir: Option<String>,
    pub env_name: String,
    pub env_value: String,
}

/// The environment variable that carries the address, by mode.
pub open spec fn address_variable(mode: CommunicationMode) -> Seq<char> {
    match mode {
        CommunicationMode::Pipe => "PIPE_ADDRESS"@,
        CommunicationMode::Http => "HTTP_ADDRESS"@,
    }
}

/// A registered process and its child handle, if it runs.
pub struct ManagedProcess<H> {
    pub process: Process,
    pub child: Option<H>,
}

/// The supervisor: one entry per registered process id, in registration order.
pub struct ProcessSupervisor<H> {
    entries: Vec<ManagedProcess<H>>,
}

/// A start of `id` is refused because no such process is registered.
pub open spec fn start_refused_unknown(m: Map<Seq<char>, bool>, id: Seq<char>) -> bool {
    !m.contains_key(id)
}

/// A start of `id` is refused because it already runs.
pub open spec fn start_refused_running(m: Map<Seq<char>, bool>, id: Seq<char>) -> bool {
    m.contains_key(id) && m[id]
}

/// A stop of `id` is refused: only an unknown id is.
pub open spec fn stop_refused(m: Map<Seq<char>, bool>, id: Seq<char>) -> bool {
    !m.contains_key(id)
}

impl<H> ProcessSupervisor<H> {
    /// Ids are unique.
    pub closed spec fn wf(&self) -> bool {
        forall|i: int, j: int|
            0 <= i < j < self.entries@.len() ==> (#[trigger] self.entries@[i]).process.id@
                != (#[trigger] self.entries@[j]).process.id@
    }

    /// The registered ids, in registration order.
    pub closed spec fn ids(&self) -> Seq<Seq<char>> {
        self.entries@.map_values(|e: ManagedProcess<H>| e.process.id@)
    }

    /// Each registered id, mapped to whether it holds a live handle.
    pub closed spec fn view(&self) -> Map<Seq<char>, bool> {
        Map::new(
            |k: Seq<char>| self.ids().contains(k),
            |k: Seq<char>|
                exists|i: int|
                    0 <= i < self.entries@.len() && self.entries@[i].process.id@ == k
                        && (#[trigger] self.entries@[i]).child is Some,
        )
    }

    /// The process registered under `id`.
    pub closed spec fn process_of(&self, id: Seq<char>) -> Process {
        self.entries@[choose|i: int| 0 <= i < self.entries@.len() && self.entries@[i].process.id@ == id].process
    }

    /// The handle held under `id`.
    pub closed spec fn handle_of(&self, id: Seq<char>) -> Option<H> {
        self.entries@[choose|i: int| 0 <= i < self.entries@.len() && self.entries@[i].process.id@ == id].child
    }

    /// What the model says of the entry at position `i`.
    proof fn lemma_entry(&self, i: int)
        requires
            self.wf(),
            0 <= i < self.entries@.len(),
        ensures
            self.view().contains_key(self.entries@[i].process.id@),
            self.view()[self.entries@[i].process.id@] == self.entries@[i].child is Some,
            self.process_of(self.entries@[i].process.id@) == self.entries@[i].process,
            self.handle_of(self.entries@[i].process.id@) == self.entries@[i].child,
    {
        let k = self.entries@[i].process.id@;
        assert(self.ids()[i] == k);
        let j = choose|j: int| 0 <= j < self.entries@.len() && self.entries@[j].process.id@ == k;
        assert(j == i) by {
            if j < i {
                assert(self.entries@[j].process.id@ != self.entries@[i].process.id@);
            } else if i < j {
                assert(self.entries@[i].process.id@ != self.entries@[j].process.id@);
            }
        }
        if self.entries@[i].child is Some {
            assert(self.view()[k]);
        } else {
            if self.view()[k] {
                let m = choose|m: int|
                    0 <= m < self.entries@.len() && self.entries@[m].process.id@ == k
                        && (#[trigger] self.entries@[m]).child is Some;
                assert(m == i) by {
                    if m < i {
                        assert(self.entries@[m].process.id@ != self.entries@[i].process.id@);
                    } else if i < m {
                        assert(self.entries@[i].process.id@ != self.entries@[m].process.id@);
                    }
                }
            }
        }
    }

    /// An id that no entry carries is not in the model.
    proof fn lemma_absent(&self, k: Seq<char>)
        requires
            forall|i: int| 0 <= i < self.entries@.len() ==> (#[trigger] self.entries@[i]).process.id@ != k,
        ensures
            !self.view().contains_key(k),
    {
        if self.ids().contains(k) {
            let i = choose|i: int| 0 <= i < self.ids().len() && self.ids()[i] == k;
            assert(self.entries@[i].process.id@ == k);
        }
    }

    /// Two supervisors with the same entries apart from position `i` agree
    /// on every other id.
    proof fn lemma_frame(&self, other: &Self, i: int)
        requires
            self.wf(),
            other.wf(),
            self.entries@.len() == other.entries@.len(),
            0 <= i < self.entries@.len(),
            self.entries@[i].process.id@ == other.entries@[i].process.id@,
            forall|j: int| 0 <= j < self.entries@.len() && j != i ==> #[trigger] self.entries@[j] == other.entries@[j],
        ensures
            other.view() == self.view().insert(self.entries@[i].process.id@, other.entries@[i].child is Some),
            other.ids() == self.ids(),
            forall|k: Seq<char>| self.view().contains_key(k) && k != self.entries@[i].process.id@ ==> #[trigger] other.handle_of(k) == self.handle_of(k),
            forall|k: Seq<char>| self.view().contains_key(k) && k != self.entries@[i].process.id@ ==> #[trigger] other.process_of(k) == self.process_of(k),
    {
        let k = self.entries@[i].process.id@;
        assert(other.ids() =~= self.ids());
        other.lemma_entry(i);
        assert forall|key: Seq<char>| other.view().contains_key(key) && key != k implies other.view()[key] == self.view()[key] by {
            if key != k {
                let j = choose|j: int| 0 <= j < other.ids().len() && other.ids()[j] == key;
                self.lemma_entry(j);
                other.lemma_entry(j);
            }
        }
        assert(other.view() =~= self.view().insert(k, other.entries@[i].child is Some));
        assert forall|key: Seq<char>| self.view().contains_key(key) && key != k implies #[trigger] other.handle_of(key) == self.handle_of(key)
            && other.process_of(key) == self.process_of(key) by {
            let j = choose|j: int| 0 <= j < self.ids().len() && self.ids()[j] == key;
            self.lemma_entry(j);
            other.lemma_entry(j);
        }
    }

    pub fn new() -> (r: Self)
        ensures
            r.wf(),
            r.view() == Map::<Seq<char>, bool>::empty(),
            r.ids() == Seq::<Seq<char>>::empty(),
    {
        let r = ProcessSupervisor { entries: Vec::new() };
        assert(r.view() =~= Map::<Seq<char>, bool>::empty());
        assert(r.ids() =~= Seq::<Seq<char>>::empty());
        r
    }

    /// The position of the entry for `id`.
    fn find(&self, id: &str) -> (r: Option<usize>)
        ensures
            r matches Some(i) ==> i < self.entries@.len() && self.entries@[i as int].process.id@ == id@,
            r is None ==> forall|i: int| 0 <= i < self.entries@.len() ==> (#[trigger] self.entries@[i]).process.id@ != id@,
    {
        let mut i: usize = 0;
        while i < self.entries.len()
            invariant
                i <= self.entries@.len(),
                forall|j: int| 0 <= j < i ==> (#[trigger] self.entries@[j]).process.id@ != id@,
            decreases self.entries@.len() - i,
        {
            if str_eq(self.entries[i].process.id.as_str(), id) {
                return Some(i);
            }
            i = i + 1;
        }
        None
    }

    /// Registers a process, replacing any entry with the same id; the entry
    /// starts without a handle.
    pub fn register(&mut self, process: Process)
        requires
            old(self).wf(),
        ensures
            final(self).wf(),
            final(self).view() == old(self).view().insert(process.id@, false),
            final(self).process_of(process.id@) == process,
            old(self).view().contains_key(process.id@) ==> final(self).ids() == old(self).ids(),
            !old(self).view().contains_key(process.id@) ==> final(self).ids() == old(self).ids().push(process.id@),
            final(self).handle_of(process.id@) is None,
            forall|k: Seq<char>| old(self).view().contains_key(k) && k != process.id@ ==> #[trigger] final(self).handle_of(k)
                == old(self).handle_of(k) && final(self).process_of(k) == old(self).process_of(k),
    {
        let ghost k = process.id@;
        let ghost before = *self;
        match self.find(process.id.as_str()) {
            Some(i) => {
                proof {
                    before.lemma_entry(i as int);
                }
                self.entries[i] = ManagedProcess { process, child: None };
                proof {
                    assert forall|a: int, b: int| 0 <= a < b < self.entries@.len() implies
                        (#[trigger] self.entries@[a]).process.id@ != (#[trigger] self.entries@[b]).process.id@ by {
                        assert(before.entries@[a].process.id@ != before.entries@[b].process.id@);
                    }
                    before.lemma_frame(self, i as int);
                    self.lemma_entry(i as int);
                }
            },
            None => {
                proof {
                    before.lemma_absent(k);
                }
                self.entries.push(ManagedProcess { process, child: None });
                proof {
                    let n = before.entries@.len() as int;
                    assert forall|a: int, b: int| 0 <= a < b < self.entries@.len() implies
                        (#[trigger] self.entries@[a]).process.id@ != (#[trigger] self.entries@[b]).process.id@ by {
                        if b < n {
                            assert(before.entries@[a].process.id@ != before.entries@[b].process.id@);
                        } else {
                            assert(before.entries@[a] == self.entries@[a]);
                        }
                    }
                    assert(self.ids() =~= before.ids().push(k));
                    self.lemma_entry(n);
                    assert forall|key: Seq<char>| self.view().contains_key(key) && key != k implies self.view()[key] == before.view()[key]
                        && self.handle_of(key) == before.handle_of(key) && self.process_of(key) == before.process_of(key) by {
                        if key != k {
                            let j = choose|j: int| 0 <= j < self.ids().len() && self.ids()[j] == key;
                            assert(j < n);
                            self.lemma_entry(j);
                            before.lemma_entry(j);
                        }
                    }
                    assert forall|key: Seq<char>| before.view().contains_key(key) implies self.view().contains_key(key) by {
                        let j = choose|j: int| 0 <= j < before.ids().len() && before.ids()[j] == key;
                        assert(self.ids()[j] == key);
                    }
                    assert(self.view() =~= before.view().insert(k, false));
                }
            },
        }
    }

    /// Whether `id` is registered.
    pub fn is_registered(&self, id: &ProcessId) -> (r: bool)
        requires
            self.wf(),
        ensures
            r == self.view().contains_key(id@),
    {
        match self.find(id.as_str()) {
            Some(i) => {
                proof {
                    self.lemma_entry(i as int);
                }
                true
            },
            None => {
                proof {
                    self.lemma_absent(id@);
                }
                false
            },
        }
    }

    /// Whether `id` is registered and holds a live handle.
    pub fn is_running(&self, id: &ProcessId) -> (r: bool)
        requires
            self.wf(),
        ensures
            r == (self.view().contains_key(id@) && self.view()[id@]),
    {
        match self.find(id.as_str()) {
            Some(i) => {
                proof {
                    self.lemma_entry(i as int);
                }
                self.entries[i].child.is_some()
            },
            None => {
                proof {
                    self.lemma_absent(id@);
                }
                false
            },
        }
    }

    /// Decides a start of `id`: refused for an unknown id or one that runs;
    /// otherwise what to launch, with the address derived from the process's
    /// endpoint name and mode.
    pub fn begin_start(&self, id: &ProcessId) -> (r: Result<LaunchSpec, OrchestrationError>)
        requires
            self.wf(),
        ensures
            start_refused_unknown(self.view(), id@) ==> (r matches Err(OrchestrationError::ProcessNotFound(m)) && m@ == id@),
            start_refused_running(self.view(), id@) ==> (r matches Err(OrchestrationError::AlreadyRunning(m)) && m@ == id@),
            r is Ok <==> !start_refused_unknown(self.view(), id@) && !start_refused_running(self.view(), id@),
            r matches Ok(spec) ==> spec.describes(self.process_of(id@)),
    {
        match self.find(id.as_str()) {
            None => {
                proof {
                    self.lemma_absent(id@);
                }
                Err(OrchestrationError::ProcessNotFound(String::from_str(id.as_str())))
            },
            Some(i) => {
                proof {
                    self.lemma_entry(i as int);
                }
                let entry = &self.entries[i];
                if entry.child.is_some() {
                    return Err(OrchestrationError::AlreadyRunning(String::from_str(id.as_str())));
                }
                Ok(LaunchSpec::for_process(&entry.process))
            },
        }
    }

    /// Records the outcome of launching `id`: a handle makes the entry
    /// Running; a launch failure is reported as such and leaves the entry
    /// as it was. A handle for an id that is unknown or already runs is
    /// refused as `begin_start` would refuse it.
    pub fn finish_start(&mut self, id: &ProcessId, outcome: Result<H, String>) -> (r: Result<(), OrchestrationError>)
        requires
            old(self).wf(),
        ensures
            final(self).wf(),
            final(self).ids() == old(self).ids(),
            start_refused_unknown(old(self).view(), id@) ==> (r matches Err(OrchestrationError::ProcessNotFound(m)) && m@ == id@),
            start_refused_running(old(self).view(), id@) ==> (r matches Err(OrchestrationError::AlreadyRunning(m)) && m@ == id@),
            !start_refused_unknown(old(self).view(), id@) && !start_refused_running(old(self).view(), id@) ==> {
                &&& outcome matches Err(e) ==> (r matches Err(OrchestrationError::SpawnFailed(m)) && m == e)
                &&& outcome is Ok ==> r is Ok
            },
            r is Ok ==> final(self).view() == old(self).view().insert(id@, true),
            r is Err ==> final(self).view() == old(self).view(),
            forall|k: Seq<char>| old(self).view().contains_key(k) ==> #[trigger] final(self).process_of(k) == old(self).process_of(k),
            r is Ok ==> (outcome matches Ok(h) && final(self).handle_of(id@) == Some(h)),
            forall|k: Seq<char>| old(self).view().contains_key(k) && (k != id@ || r is Err) ==> #[trigger] final(self).handle_of(k)
                == old(self).handle_of(k),
    {
        let ghost before = *self;
        match self.find(id.as_str()) {
            None => {
                proof {
                    self.lemma_absent(id@);
                }
                Err(OrchestrationError::ProcessNotFound(String::from_str(id.as_str())))
            },
            Some(i) => {
                proof {
                    self.lemma_entry(i as int);
                }
                if self.entries[i].child.is_some() {
                    return Err(OrchestrationError::AlreadyRunning(String::from_str(id.as_str())));
                }
                match outcome {
                    Err(e) => Err(OrchestrationError::SpawnFailed(e)),
                    Ok(h) => {
                        self.entries[i].child = Some(h);
                        proof {
                            assert forall|a: int, b: int| 0 <= a < b < self.entries@.len() implies
                                (#[trigger] self.entries@[a]).process.id@ != (#[trigger] self.entries@[b]).process.id@ by {
                                assert(before.entries@[a].process.id@ != before.entries@[b].process.id@);
                            }
                            before.lemma_frame(self, i as int);
                            self.lemma_entry(i as int);
                            assert forall|k: Seq<char>| before.view().contains_key(k) implies #[trigger] self.process_of(k) == before.process_of(k) by {
                                let j = choose|j: int| 0 <= j < before.ids().len() && before.ids()[j] == k;
                                before.lemma_entry(j);
                                self.lemma_entry(j);
                            }
                        }
                        Ok(())
                    },
                }
            },
        }
    }

    /// Decides a stop of `id`: refused only for an unknown id; otherwise the
    /// handle, if any, is taken out (for the caller to kill) and the entry
    /// becomes Registered. A stop of a registered process that does not run
    /// succeeds with no handle.
    pub fn take_for_stop(&mut self, id: &ProcessId) -> (r: Result<Option<H>, OrchestrationError>)
        requires
            old(self).wf(),
        ensures
            final(self).wf(),
            final(self).ids() == old(self).ids(),
            stop_refused(old(self).view(), id@) ==> (r matches Err(OrchestrationError::ProcessNotFound(m)) && m@ == id@),
            r is Ok <==> !stop_refused(old(self).view(), id@),
            r matches Ok(h) ==> (h is Some <==> old(self).view()[id@]),
            r is Ok ==> final(self).view() == old(self).view().insert(id@, false),
            r is Err ==> final(self).view() == old(self).view(),
            forall|k: Seq<char>| old(self).view().contains_key(k) ==> #[trigger] final(self).process_of(k) == old(self).process_of(k),
            r matches Ok(h) ==> h == old(self).handle_of(id@) && final(self).handle_of(id@) is None,
            forall|k: Seq<char>| old(self).view().contains_key(k) && k != id@ ==> #[trigger] final(self).handle_of(k)
                == old(self).handle_of(k),
    {
        let ghost before = *self;
        match self.find(id.as_str()) {
            None => {
                proof {
                    self.lemma_absent(id@);
                }
                Err(OrchestrationError::ProcessNotFound(String::from_str(id.as_str())))
            },
            Some(i) => {
                proof {
                    self.lemma_entry(i as int);
                }
                let h = self.entries[i].child.take();
                proof {
                    assert forall|a: int, b: int| 0 <= a < b < self.entries@.len() implies
                        (#[trigger] self.entries@[a]).process.id@ != (#[trigger] self.entries@[b]).process.id@ by {
                        assert(before.entries@[a].process.id@ != before.entries@[b].process.id@);
                    }
                    before.lemma_frame(self, i as int);
                    self.lemma_entry(i as int);
                    assert forall|k: Seq<char>| before.view().contains_key(k) implies #[trigger] self.process_of(k) == before.process_of(k) by {
                        let j = choose|j: int| 0 <= j < before.ids().len() && before.ids()[j] == k;
                        before.lemma_entry(j);
                        self.lemma_entry(j);
                    }
                }
                Ok(h)
            },
        }
    }

    /// The outcome of a stop, given what killing the taken handle reported.
    pub fn kill_outcome(outcome: Result<(), String>) -> (r: Result<(), OrchestrationError>)
        ensures
            outcome is Ok ==> r is Ok,
            outcome matches Err(e) ==> (r matches Err(OrchestrationError::KillFailed(m)) && m == e),
    {
        match outcome {
            Ok(()) => Ok(()),
            Err(e) => Err(OrchestrationError::KillFailed(e)),
        }
    }

    /// Starts `id`: refused as unknown or already running with nothing
    /// launched; otherwise `spawn` is given the launch spec and its handle
    /// makes the entry Running, or its failure is reported as a spawn
    /// failure with the entry left Registered.
    pub fn start_process<F: FnOnce(&LaunchSpec) -> Result<H, String>>(&mut self, id: &ProcessId, spawn: F) -> (r: Result<(), OrchestrationError>)
        requires
            old(self).wf(),
            forall|s: &LaunchSpec| spawn.requires((s,)),
        ensures
            final(self).wf(),
            final(self).ids() == old(self).ids(),
            start_refused_unknown(old(self).view(), id@) ==> (r matches Err(OrchestrationError::ProcessNotFound(m)) && m@ == id@),
            start_refused_running(old(self).view(), id@) ==> (r matches Err(OrchestrationError::AlreadyRunning(m)) && m@ == id@),
            r matches Err(OrchestrationError::SpawnFailed(_)) ==> !start_refused_unknown(old(self).view(), id@)
                && !start_refused_running(old(self).view(), id@),
            r is Ok ==> !start_refused_unknown(old(self).view(), id@) && !start_refused_running(old(self).view(), id@),
            r is Ok ==> final(self).view() == old(self).view().insert(id@, true) && final(self).handle_of(id@) is Some,
            r is Err ==> final(self).view() == old(self).view(),
            forall|k: Seq<char>| old(self).view().contains_key(k) ==> #[trigger] final(self).process_of(k) == old(self).process_of(k),
            forall|k: Seq<char>| old(self).view().contains_key(k) && (k != id@ || r is Err) ==> #[trigger] final(self).handle_of(k)
                == old(self).handle_of(k),
    {
        let spec = self.begin_start(id)?;
        let outcome = spawn(&spec);
        self.finish_start(id, outcome)
    }

    /// Stops `id`: refused only as unknown; otherwise the entry becomes
    /// Registered, and a handle it held is given to `kill`, whose failure is
    /// reported as a kill failure. Stopping an entry that does not run
    /// succeeds and changes nothing.
    pub fn stop_process<K: FnOnce(H) -> Result<(), String>>(&mut self, id: &ProcessId, kill: K) -> (r: Result<(), OrchestrationError>)
        requires
            old(self).wf(),
            forall|h: H| kill.requires((h,)),
        ensures
            final(self).wf(),
            final(self).ids() == old(self).ids(),
            stop_refused(old(self).view(), id@) ==> (r matches Err(OrchestrationError::ProcessNotFound(m)) && m@ == id@),
            stop_refused(old(self).view(), id@) ==> final(self).view() == old(self).view(),
            !stop_refused(old(self).view(), id@) ==> final(self).view() == old(self).view().insert(id@, false),
            !stop_refused(old(self).view(), id@) && !old(self).view()[id@] ==> r is Ok && final(self).view() == old(self).view(),
            r matches Err(e) ==> e is ProcessNotFound || (e is KillFailed && old(self).view()[id@]),
            forall|k: Seq<char>| old(self).view().contains_key(k) ==> #[trigger] final(self).process_of(k) == old(self).process_of(k),
            forall|k: Seq<char>| old(self).view().contains_key(k) && k != id@ ==> #[trigger] final(self).handle_of(k)
                == old(self).handle_of(k),
    {
        match self.take_for_stop(id)? {
            Some(h) => Self::kill_outcome(kill(h)),
            None => {
                proof {
                    assert(self.view() =~= old(self).view());
                }
                Ok(())
            },
        }
    }

    /// The registered ids, in registration order.
    pub fn registered_ids(&self) -> (r: Vec<ProcessId>)
        ensures
            r@.len() == self.ids().len(),
            forall|i: int| 0 <= i < r@.len() ==> (#[trigger] r@[i])@ == self.ids()[i],
    {
        let mut r: Vec<ProcessId> = Vec::new();
        let mut i: usize = 0;
        while i < self.entries.len()
            invariant
                i <= self.entries@.len(),
                r@.len() == i,
                forall|j: int| 0 <= j < i ==> (#[trigger] r@[j])@ == self.ids()[j],
            decreases self.entries@.len() - i,
        {
            r.push(self.entries[i].process.id.clone());
            i = i + 1;
        }
        r
    }

    /// Copies of the registered processes, in registration order.
    pub fn get_configs(&self) -> (r: Vec<Process>)
        requires
            self.wf(),
        ensures
            r@.len() == self.ids().len(),
            forall|i: int| 0 <= i < r@.len() ==> (#[trigger] r@[i]).same_as(&self.process_of(self.ids()[i])),
    {
        let mut r: Vec<Process> = Vec::new();
        let mut i: usize = 0;
        while i < self.entries.len()
            invariant
                self.wf(),
                i <= self.entries@.len(),
                r@.len() == i,
                forall|j: int| 0 <= j < i ==> (#[trigger] r@[j]).same_as(&self.process_of(self.ids()[j])),
            decreases self.entries@.len() - i,
        {
            proof {
                self.lemma_entry(i as int);
            }
            r.push(self.entries[i].process.clone());
            i = i + 1;
        }
        r
    }

    /// Takes every live handle out, each with its id, for the caller to
    /// terminate; every entry becomes Registered. Every handle that was held
    /// is returned, under its own id.
    pub fn take_all_handles(&mut self) -> (r: Vec<(ProcessId, H)>)
        requires
            old(self).wf(),
        ensures
            final(self).wf(),
            final(self).ids() == old(self).ids(),
            final(self).view().dom() == old(self).view().dom(),
            forall|k: Seq<char>| #[trigger] final(self).view().contains_key(k) ==> !final(self).view()[k],
            forall|k: Seq<char>| old(self).view().contains_key(k) ==> #[trigger] final(self).process_of(k) == old(self).process_of(k),
            forall|m: int| 0 <= m < r@.len() ==> old(self).view().contains_key((#[trigger] r@[m]).0@)
                && old(self).handle_of(r@[m].0@) == Some(r@[m].1),
            forall|k: Seq<char>| old(self).view().contains_key(k) && #[trigger] old(self).view()[k] ==> exists|m: int|
                0 <= m < r@.len() && (#[trigger] r@[m]).0@ == k,
    {
        let ghost before = *self;
        let ghost mut pos: Seq<int> = seq![];
        let ghost mut slot: Map<int, int> = Map::empty();
        let mut r: Vec<(ProcessId, H)> = Vec::new();
        let mut i: usize = 0;
        while i < self.entries.len()
            invariant
                i <= self.entries@.len(),
                self.entries@.len() == before.entries@.len(),
                forall|j: int| 0 <= j < self.entries@.len() ==> (#[trigger] self.entries@[j]).process == before.entries@[j].process,
                forall|j: int| 0 <= j < i ==> (#[trigger] self.entries@[j]).child is None,
                forall|j: int| i <= j < self.entries@.len() ==> (#[trigger] self.entries@[j]).child == before.entries@[j].child,
                pos.len() == r@.len(),
                forall|m: int| 0 <= m < r@.len() ==> 0 <= #[trigger] pos[m] < i
                    && r@[m].0 == before.entries@[pos[m]].process.id
                    && before.entries@[pos[m]].child == Some(r@[m].1),
                forall|j: int| 0 <= j < i && (#[trigger] before.entries@[j]).child is Some ==> slot.contains_key(j)
                    && 0 <= slot[j] < r@.len() && r@[slot[j]].0 == before.entries@[j].process.id,
            decreases self.entries@.len() - i,
        {
            match self.entries[i].child.take() {
                Some(h) => {
                    let id = self.entries[i].process.id.clone();
                    proof {
                        slot = slot.insert(i as int, r@.len() as int);
                        pos = pos.push(i as int);
                    }
                    r.push((id, h));
                },
                None => {},
            }
            i = i + 1;
        }
        proof {
            assert forall|a: int, b: int| 0 <= a < b < self.entries@.len() implies
                (#[trigger] self.entries@[a]).process.id@ != (#[trigger] self.entries@[b]).process.id@ by {
                assert(before.entries@[a].process.id@ != before.entries@[b].process.id@);
            }
            assert(self.ids() =~= before.ids());
            assert forall|k: Seq<char>| #[trigger] self.view().contains_key(k) implies !self.view()[k] by {
                let j = choose|j: int| 0 <= j < self.ids().len() && self.ids()[j] == k;
                self.lemma_entry(j);
            }
            assert(self.view().dom() =~= before.view().dom());
            assert forall|k: Seq<char>| before.view().contains_key(k) implies #[trigger] self.process_of(k) == before.process_of(k) by {
                let j = choose|j: int| 0 <= j < before.ids().len() && before.ids()[j] == k;
                before.lemma_entry(j);
                self.lemma_entry(j);
            }
            assert forall|m: int| 0 <= m < r@.len() implies before.view().contains_key((#[trigger] r@[m]).0@)
                && before.handle_of(r@[m].0@) == Some(r@[m].1) by {
                before.lemma_entry(pos[m]);
            }
            assert forall|k: Seq<char>| before.view().contains_key(k) && #[trigger] before.view()[k] implies exists|m: int|
                0 <= m < r@.len() && (#[trigger] r@[m]).0@ == k by {
                let j = choose|j: int| 0 <= j < before.ids().len() && before.ids()[j] == k;
                before.lemma_entry(j);
                let m = slot[j];
                assert(r@[m].0@ == k);
            }
        }
        r
    }
}

impl LaunchSpec {
    /// This launch spec is the one for `p`.
    pub open spec fn describes(&self, p: Process) -> bool {
        &&& self.program@ == p.executable@
        &&& self.args@ == p.arguments@
        &&& self.working_dir is Some == p.working_directory is Some
        &&& (p.working_directory matches Some(w) ==> self.working_dir->Some_0@ == w@)
        &&& self.env_name@ == address_variable(p.communication_mode)
        &&& self.env_value@ == address_for(p.pipe_name@, p.communication_mode)
    }

    /// The launch spec for a process.
    pub fn for_process(p: &Process) -> (r: LaunchSpec)
        ensures
            r.describes(*p),
    {
        let working_dir = match &p.working_directory {
            Some(w) => Some(String::from_str(w.as_str())),
            None => None,
        };
        let env_name = match p.communication_mode {
            CommunicationMode::Pipe => String::from_str("PIPE_ADDRESS"),
            CommunicationMode::Http => String::from_str("HTTP_ADDRESS"),
        };
        LaunchSpec {
            program: String::from_str(p.executable.as_str()),
            args: clone_strings(&p.arguments),
            working_dir,
            env_name,
            env_value: derive_address(p.pipe_name.as_str(), p.communication_mode),
        }
    }
}

/// The supervisor's start/stop protocol: starting an unknown id is refused
/// as unknown; once a start has succeeded, a second start of the same id is
/// refused as already running; stopping a registered id that does not run
/// is not refused.
pub proof fn lemma_start_stop_protocol(m: Map<Seq<char>, bool>, id: Seq<char>)
    ensures
        !m.contains_key(id) ==> start_refused_unknown(m, id),
        !start_refused_unknown(m, id) && !start_refused_running(m, id) ==> start_refused_running(m.insert(id, true), id),
        m.contains_key(id) && !m[id] ==> !stop_refused(m, id),
        m.contains_key(id) ==> !stop_refused(m.insert(id, false), id) && !start_refused_running(m.insert(id, false), id),
{
}

} // verus!
