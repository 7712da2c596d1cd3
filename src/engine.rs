use vstd::prelude::*;

use dashmap::DashMap;

use crate::registry::{
    new_status_table, new_task_table, status_entries, status_get, status_insert, status_pairs,
    status_remove, task_entries, task_get, task_insert, task_remove, TaskEntry,
};
use crate::types::{File, UploadStatus};

verus! {

/// Number of uploads allowed past slot acquisition at once by default.
pub const DEFAULT_POOL_SIZE: u64 = 5;

/// Failures of the engine's own bookkeeping.
#[derive(Debug, PartialEq, Eq, Structural)]
pub enum EngineError {
    /// No live task has the given id.
    NotFound,
    /// A live task already has the given id.
    AlreadySubmitted,
}

/// What a queued task learns when it asks for a slot.
#[derive(Debug, Clone, Copy, PartialEq, Eq, Structural)]
pub enum SlotDecision {
    /// The task holds a slot and may transfer.
    Granted,
    /// Every slot is taken: ask again once one is released.
    Wait,
    /// The task was cancelled while queued; it is finished as `Cancelled`.
    Cancelled,
    /// No live task has this id.
    Unknown,
}

/// The status every task reports as soon as it is accepted.
pub open spec fn initial_status() -> UploadStatus {
    UploadStatus::Uploading { bytes_uploaded: 0, total_bytes: 0, speed: 0 }
}

/// The entry a task is registered with.
pub open spec fn fresh_entry(e: TaskEntry, remote_filename: Seq<char>) -> bool {
    &&& e.remote_filename@ == remote_filename
    &&& !e.cancelled
    &&& !e.started
    &&& e.upload_id is None
}

/// The statuses that remain once the terminal ones have been read.
pub open spec fn without_terminal(m: Map<Seq<char>, UploadStatus>) -> Map<
    Seq<char>,
    UploadStatus,
> {
    m.restrict(m.dom().filter(|k: Seq<char>| !m[k].is_terminal_spec()))
}

/// The status stored under `k`, if any.
pub open spec fn lookup(m: Map<Seq<char>, UploadStatus>, k: Seq<char>) -> Option<UploadStatus> {
    if m.contains_key(k) {
        Some(m[k])
    } else {
        None
    }
}

/// A progress report replaces the stored status unless that status is
/// terminal or reports more uploaded bytes.
pub open spec fn progress_applies(current: Option<UploadStatus>, report: UploadStatus) -> bool {
    match current {
        None => true,
        Some(cur) => match cur {
            UploadStatus::Uploading { bytes_uploaded: before, .. } => match report {
                UploadStatus::Uploading { bytes_uploaded: now, .. } => before <= now,
                _ => false,
            },
            _ => !cur.is_terminal_spec(),
        },
    }
}

/// Orchestrates uploads: the task registry, the status store and the pool of
/// concurrency slots.
pub struct UploadEngine {
    pool_size: u64,
    active: u64,
    tasks: DashMap<String, TaskEntry>,
    statuses: DashMap<String, UploadStatus>,
}

impl UploadEngine {
    /// Live tasks by id.
    pub closed spec fn tasks(&self) -> Map<Seq<char>, TaskEntry> {
        task_entries(self.tasks)
    }

    /// Latest status by task id.
    pub closed spec fn statuses(&self) -> Map<Seq<char>, UploadStatus> {
        status_entries(self.statuses)
    }

    /// How many tasks may hold a slot at once.
    pub closed spec fn pool_size_spec(&self) -> nat {
        self.pool_size as nat
    }

    /// The ids of the tasks past slot acquisition.
    pub open spec fn running(&self) -> Set<Seq<char>> {
        Set::new(|k: Seq<char>| self.tasks().contains_key(k) && self.tasks()[k].started)
    }

    pub closed spec fn wf(&self) -> bool {
        &&& self.pool_size > 0
        &&& self.active <= self.pool_size
        &&& self.running().finite()
        &&& self.running().len() == self.active
    }

    /// An engine with `pool_size` slots and no tasks.
    pub fn new(pool_size: u64) -> (r: Self)
        requires
            pool_size > 0,
        ensures
            r.wf(),
            r.pool_size_spec() == pool_size,
            r.tasks().dom() == Set::<Seq<char>>::empty(),
            r.statuses().dom() == Set::<Seq<char>>::empty(),
    {
        let r = UploadEngine {
            pool_size,
            active: 0,
            tasks: new_task_table(),
            statuses: new_status_table(),
        };
        assert(r.running() =~= Set::empty());
        r
    }

    /// Accepts a request: registers its task and reports the initial
    /// `Uploading` status, before any slot is taken.
    pub fn submit(&mut self, file: &File) -> (r: Result<(), EngineError>)
        requires
            old(self).wf(),
        ensures
            final(self).wf(),
            final(self).pool_size_spec() == old(self).pool_size_spec(),
            old(self).tasks().contains_key(file.id@) ==> {
                &&& r == Err::<(), EngineError>(EngineError::AlreadySubmitted)
                &&& final(self).tasks() == old(self).tasks()
                &&& final(self).statuses() == old(self).statuses()
            },
            !old(self).tasks().contains_key(file.id@) ==> {
                &&& r is Ok
                &&& final(self).tasks() == old(self).tasks().insert(
                    file.id@,
                    final(self).tasks()[file.id@],
                )
                &&& fresh_entry(final(self).tasks()[file.id@], file.remote_filename@)
                &&& final(self).statuses() == old(self).statuses().insert(
                    file.id@,
                    initial_status(),
                )
            },
    {
        let found = task_get(&self.tasks, file.id.as_str());
        if found.is_some() {
            return Err(EngineError::AlreadySubmitted);
        }
        let entry = TaskEntry {
            remote_filename: file.remote_filename.clone(),
            cancelled: false,
            started: false,
            upload_id: None,
        };
        let ghost before = self.running();
        task_insert(&mut self.tasks, file.id.clone(), entry);
        assert(self.running() =~= before);
        status_insert(
            &mut self.statuses,
            file.id.clone(),
            UploadStatus::Uploading { bytes_uploaded: 0, total_bytes: 0, speed: 0 },
        );
        Ok(())
    }

    /// A queued task asks for a slot. A task cancelled while it waited is
    /// finished here as `Cancelled`, before it transfers anything.
    pub fn try_start(&mut self, id: &str) -> (r: SlotDecision)
        requires
            old(self).wf(),
        ensures
            final(self).wf(),
            final(self).pool_size_spec() == old(self).pool_size_spec(),
            !old(self).tasks().contains_key(id@) ==> r == SlotDecision::Unknown && *final(self)
                == *old(self),
            old(self).tasks().contains_key(id@) ==> {
                let e = old(self).tasks()[id@];
                if e.started {
                    r == SlotDecision::Granted && *final(self) == *old(self)
                } else if e.cancelled {
                    &&& r == SlotDecision::Cancelled
                    &&& final(self).tasks() == old(self).tasks().remove(id@)
                    &&& final(self).statuses() == old(self).statuses().insert(
                        id@,
                        UploadStatus::Cancelled,
                    )
                } else if old(self).running().len() < old(self).pool_size_spec() {
                    &&& r == SlotDecision::Granted
                    &&& final(self).tasks() == old(self).tasks().insert(
                        id@,
                        TaskEntry { started: true, ..e },
                    )
                    &&& final(self).statuses() == old(self).statuses()
                } else {
                    r == SlotDecision::Wait && *final(self) == *old(self)
                }
            },
    {
        let found = task_get(&self.tasks, id);
        match found {
            None => SlotDecision::Unknown,
            Some(e) => {
                if e.started {
                    SlotDecision::Granted
                } else if e.cancelled {
                    let ghost before = self.running();
                    task_remove(&mut self.tasks, id);
                    assert(self.running() =~= before);
                    status_insert(&mut self.statuses, id.to_string(), UploadStatus::Cancelled);
                    SlotDecision::Cancelled
                } else if self.active < self.pool_size {
                    let ghost before = self.running();
                    let ghost e0 = e;
                    let mut started = e;
                    started.started = true;
                    assert(started == TaskEntry { started: true, ..e0 });
                    task_insert(&mut self.tasks, id.to_string(), started);
                    assert(self.running() =~= before.insert(id@));
                    self.active = self.active + 1;
                    SlotDecision::Granted
                } else {
                    SlotDecision::Wait
                }
            },
        }
    }

    /// Whether the task's cancellation signal is set; false for an id that
    /// is not live.
    pub fn is_cancelled(&self, id: &str) -> (r: bool)
        ensures
            r == (self.tasks().contains_key(id@) && self.tasks()[id@].cancelled),
    {
        match task_get(&self.tasks, id) {
            Some(e) => e.cancelled,
            None => false,
        }
    }

    /// Records the multipart session a live task has open (`None` once it
    /// was completed or aborted).
    pub fn set_upload_id(&mut self, id: &str, upload_id: Option<String>)
        requires
            old(self).wf(),
        ensures
            final(self).wf(),
            final(self).pool_size_spec() == old(self).pool_size_spec(),
            final(self).statuses() == old(self).statuses(),
            !old(self).tasks().contains_key(id@) ==> final(self).tasks() == old(self).tasks(),
            old(self).tasks().contains_key(id@) ==> final(self).tasks() == old(
                self,
            ).tasks().insert(id@, TaskEntry { upload_id, ..old(self).tasks()[id@] }),
    {
        if let Some(e) = task_get(&self.tasks, id) {
            let ghost before = self.running();
            let ghost e0 = e;
            let mut updated = e;
            updated.upload_id = upload_id;
            assert(updated == TaskEntry { upload_id, ..e0 });
            task_insert(&mut self.tasks, id.to_string(), updated);
            assert(self.running() =~= before);
        }
    }

    /// Stores a progress report for a live task, keeping each task's
    /// uploaded byte count from going down; reports for other ids, or that
    /// would lower the count or replace a terminal status, are dropped.
    pub fn report_progress(&mut self, id: &str, status: UploadStatus)
        requires
            old(self).wf(),
            status is Uploading,
        ensures
            final(self).wf(),
            final(self).pool_size_spec() == old(self).pool_size_spec(),
            final(self).tasks() == old(self).tasks(),
            (old(self).tasks().contains_key(id@) && progress_applies(
                lookup(old(self).statuses(), id@),
                status,
            )) ==> final(self).statuses() == old(self).statuses().insert(id@, status),
            !(old(self).tasks().contains_key(id@) && progress_applies(
                lookup(old(self).statuses(), id@),
                status,
            )) ==> final(self).statuses() == old(self).statuses(),
    {
        if task_get(&self.tasks, id).is_none() {
            return;
        }
        let applies = match status_get(&self.statuses, id) {
            None => true,
            Some(cur) => match cur {
                UploadStatus::Uploading { bytes_uploaded: before, .. } => match &status {
                    UploadStatus::Uploading { bytes_uploaded: now, .. } => before <= *now,
                    _ => false,
                },
                _ => !cur.is_terminal(),
            },
        };
        if applies {
            status_insert(&mut self.statuses, id.to_string(), status);
        }
    }

    /// Ends a live task with its terminal status: the task leaves the
    /// registry and gives back its slot. Returns false, changing nothing,
    /// for an id that is not live.
    pub fn finish(&mut self, id: &str, outcome: UploadStatus) -> (r: bool)
        requires
            old(self).wf(),
            outcome.is_terminal_spec(),
        ensures
            final(self).wf(),
            final(self).pool_size_spec() == old(self).pool_size_spec(),
            r == old(self).tasks().contains_key(id@),
            r ==> final(self).tasks() == old(self).tasks().remove(id@),
            r ==> final(self).statuses() == old(self).statuses().insert(id@, outcome),
            r ==> final(self).running() == old(self).running().remove(id@),
            !r ==> *final(self) == *old(self),
    {
        match task_get(&self.tasks, id) {
            None => false,
            Some(e) => {
                let ghost before = self.running();
                task_remove(&mut self.tasks, id);
                if e.started {
                    assert(self.running() =~= before.remove(id@));
                    assert(before.contains(id@));
                    self.active = self.active - 1;
                } else {
                    assert(self.running() =~= before);
                    assert(self.running() =~= before.remove(id@));
                }
                status_insert(&mut self.statuses, id.to_string(), outcome);
                true
            },
        }
    }

    /// Sets the cancellation signal of a live task. The task observes it
    /// before its next chunk (or while it waits for a slot), aborts any open
    /// session and ends `Cancelled`. An unknown id is `NotFound`, and then
    /// nothing changes anywhere.
    pub fn cancel_upload(&mut self, id: &str) -> (r: Result<(), EngineError>)
        requires
            old(self).wf(),
        ensures
            final(self).wf(),
            final(self).pool_size_spec() == old(self).pool_size_spec(),
            !old(self).tasks().contains_key(id@) ==> r == Err::<(), EngineError>(
                EngineError::NotFound,
            ) && *final(self) == *old(self),
            old(self).tasks().contains_key(id@) ==> {
                &&& r is Ok
                &&& final(self).tasks() == old(self).tasks().insert(
                    id@,
                    TaskEntry { cancelled: true, ..old(self).tasks()[id@] },
                )
                &&& final(self).statuses() == old(self).statuses()
            },
    {
        match task_get(&self.tasks, id) {
            None => Err(EngineError::NotFound),
            Some(e) => {
                let ghost before = self.running();
                let ghost e0 = e;
                let mut updated = e;
                updated.cancelled = true;
                assert(updated == TaskEntry { cancelled: true, ..e0 });
                task_insert(&mut self.tasks, id.to_string(), updated);
                assert(self.running() =~= before);
                Ok(())
            },
        }
    }

    /// The latest status of a task, if the store has one.
    pub fn status_of(&self, id: &str) -> (r: Option<UploadStatus>)
        ensures
            self.statuses().contains_key(id@) ==> r == Some(self.statuses()[id@]),
            !self.statuses().contains_key(id@) ==> r is None,
    {
        status_get(&self.statuses, id)
    }

    /// A snapshot of every status, one pair per task id. Terminal statuses
    /// (`Success`, `Error`, `Cancelled`) are pruned from the store once they
    /// have been read this way; the others stay.
    pub fn get_upload_status(&mut self) -> (r: Vec<(String, UploadStatus)>)
        requires
            old(self).wf(),
        ensures
            final(self).wf(),
            final(self).pool_size_spec() == old(self).pool_size_spec(),
            final(self).tasks() == old(self).tasks(),
            forall|i: int, j: int| 0 <= i < j < r@.len() ==> r@[i].0@ != r@[j].0@,
            forall|i: int|
                0 <= i < r@.len() ==> #[trigger] old(self).statuses().contains_key(r@[i].0@)
                    && old(self).statuses()[r@[i].0@] == r@[i].1,
            forall|k: Seq<char>|
                #[trigger] old(self).statuses().contains_key(k) ==> exists|i: int|
                    0 <= i < r@.len() && r@[i].0@ == k,
            final(self).statuses() == without_terminal(old(self).statuses()),
    {
        let pairs = status_pairs(&self.statuses);
        let ghost start = self.statuses();
        let mut i: usize = 0;
        while i < pairs.len()
            invariant
                0 <= i <= pairs@.len(),
                self.wf(),
                self.pool_size_spec() == old(self).pool_size_spec(),
                self.tasks() == old(self).tasks(),
                start == old(self).statuses(),
                forall|a: int, b: int|
                    0 <= a < b < pairs@.len() ==> pairs@[a].0@ != pairs@[b].0@,
                forall|a: int|
                    0 <= a < pairs@.len() ==> #[trigger] start.contains_key(pairs@[a].0@)
                        && start[pairs@[a].0@] == pairs@[a].1,
                forall|k: Seq<char>|
                    #[trigger] self.statuses().contains_key(k) ==> start.contains_key(k)
                        && self.statuses()[k] == start[k],
                forall|k: Seq<char>|
                    #[trigger] start.contains_key(k) ==> (self.statuses().contains_key(k) <==> !(
                    exists|a: int|
                        0 <= a < i && pairs@[a].0@ == k && pairs@[a].1.is_terminal_spec())),
            decreases pairs@.len() - i,
        {
            let ghost prev = self.statuses();
            if pairs[i].1.is_terminal() {
                status_remove(&mut self.statuses, pairs[i].0.as_str());
                assert(self.statuses() == prev.remove(pairs@[i as int].0@));
            }
            assert forall|k: Seq<char>| #[trigger] self.statuses().contains_key(k) implies start.contains_key(k)
                && self.statuses()[k] == start[k] by {
                assert(prev.contains_key(k));
            }
            i = i + 1;
        }
        proof {
            let want = without_terminal(start);
            assert forall|k: Seq<char>| #[trigger]
                self.statuses().contains_key(k) == want.contains_key(k) by {
                if start.contains_key(k) {
                    let a = choose|a: int| 0 <= a < pairs@.len() && pairs@[a].0@ == k;
                    assert(start.contains_key(pairs@[a].0@));
                }
            }
            assert(self.statuses() =~= want);
        }
        pairs
    }
}

/// However many requests are queued, no more tasks are past slot
/// acquisition at once than the pool has slots.
pub proof fn lemma_pool_bound(e: &UploadEngine)
    requires
        e.wf(),
    ensures
        e.running().finite(),
        e.running().len() <= e.pool_size_spec(),
{
}

} // verus!
