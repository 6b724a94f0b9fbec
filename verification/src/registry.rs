//! The process registry: live state for the processes spawned on behalf of
//! terminals, keyed by caller-supplied identifier.
//!
//! The registry is the single owner of the per-process records. Its view is a
//! map from identifier to record model, and the invariant `wf` says that at
//! most one live record exists per identifier. The operating-system work that
//! surrounds these operations — creating the child process, draining its
//! output streams, delivering signals — is performed by the embedding
//! program: a spawn is `spawn_check`, then the OS launch, then
//! `register_spawn`; a kill is `kill`, which removes the record and hands
//! back the victim's process id for the escalating shutdown.

use vstd::prelude::*;
use crate::command_line::{is_blank, is_blank_command};
use crate::log_buffer::{push_bounded, tag_line, tagged_line, LogBuffer, LOG_CAPACITY};

verus! {

/// Failure taxonomy of the process core.
#[derive(Debug)]
pub enum ProcessError {
    /// A spawn for an identifier that already has a live record.
    DuplicateId,
    /// A spawn whose command text is empty or whitespace-only.
    InvalidCommand,
    /// The operating system refused to create the process; carries its words.
    SpawnFailure(String),
    /// A query against an identifier with no live record.
    NotFound,
}

/// Model of one live process record: the OS process id, the wall-clock
/// timestamp (milliseconds) taken at registration, and the retained log
/// lines, oldest first.
pub ghost struct RecordModel {
    pub pid: u32,
    pub started_at_ms: u64,
    pub logs: Seq<Seq<char>>,
}

/// Live state for one spawned process.
pub struct ProcessRecord {
    pub pid: u32,
    pub started_at_ms: u64,
    pub logs: LogBuffer,
}

impl View for ProcessRecord {
    type V = RecordModel;

    open spec fn view(&self) -> RecordModel {
        RecordModel { pid: self.pid, started_at_ms: self.started_at_ms, logs: self.logs@ }
    }
}

struct Entry {
    id: String,
    record: ProcessRecord,
}

/// The registry: a map from identifier to live process record, with at most
/// one record per identifier.
pub struct ProcessManager {
    entries: Vec<Entry>,
}

/// Relies on std::time::SystemTime::now for the wall clock, read once and
/// reduced to whole milliseconds since the epoch (zero if the clock sits
/// before it). Nothing is assumed of the value.
#[verifier::external_body]
fn now_millis() -> u64 {
    match std::time::SystemTime::now().duration_since(std::time::UNIX_EPOCH) {
        Ok(d) => d.as_millis() as u64,
        Err(_) => 0,
    }
}

/// Whole seconds elapsed between two wall-clock readings in milliseconds;
/// zero if the clock moved backwards.
pub open spec fn elapsed_seconds_spec(started_at_ms: u64, now_ms: u64) -> u64 {
    if now_ms < started_at_ms {
        0
    } else {
        ((now_ms - started_at_ms) / 1000) as u64
    }
}

/// Elapsed whole seconds between a recorded start and a later clock reading.
pub fn elapsed_seconds(started_at_ms: u64, now_ms: u64) -> (r: u64)
    ensures
        r == elapsed_seconds_spec(started_at_ms, now_ms),
{
    if now_ms < started_at_ms {
        0
    } else {
        (now_ms - started_at_ms) / 1000
    }
}

impl ProcessManager {
    /// Whether some entry carries `id`.
    spec fn contains_id(self, id: Seq<char>) -> bool {
        exists|i: int| 0 <= i < self.entries@.len() && self.entries@[i].id@ == id
    }

    /// The index of the entry carrying `id` (meaningful under `wf` when
    /// `contains_id` holds).
    spec fn idx_of(self, id: Seq<char>) -> int {
        choose|i: int| 0 <= i < self.entries@.len() && self.entries@[i].id@ == id
    }

    /// At most one live record per identifier, and every record's log buffer
    /// respects its capacity. Established by `new`, preserved by every
    /// operation.
    pub closed spec fn wf(self) -> bool {
        &&& forall|i: int, j: int|
            0 <= i < j < self.entries@.len() ==> self.entries@[i].id@ != self.entries@[j].id@
        &&& forall|i: int|
            0 <= i < self.entries@.len() ==> (#[trigger] self.entries@[i].record).logs.wf()
    }

    /// Under `wf`, the view at the identifier of entry `i` is that entry's
    /// record model.
    proof fn lemma_view_at(self, id: Seq<char>, i: int)
        requires
            self.wf(),
            0 <= i < self.entries@.len(),
            self.entries@[i].id@ == id,
        ensures
            self@.dom().contains(id),
            self@[id] == self.entries@[i].record@,
            self.idx_of(id) == i,
    {
        assert(self.contains_id(id));
        let j = self.idx_of(id);
        assert(0 <= j < self.entries@.len() && self.entries@[j].id@ == id);
        if j < i {
            assert(self.entries@[j].id@ != self.entries@[i].id@);
        } else if i < j {
            assert(self.entries@[i].id@ != self.entries@[j].id@);
        }
    }

    /// An empty registry.
    pub fn new() -> (r: ProcessManager)
        ensures
            r@ =~= Map::<Seq<char>, RecordModel>::empty(),
            r.wf(),
    {
        let r = ProcessManager { entries: Vec::new() };
        proof {
            assert(r@ =~= Map::<Seq<char>, RecordModel>::empty());
        }
        r
    }

    /// First entry whose identifier equals `id`, if any.
    fn find(&self, id: &str) -> (r: Option<usize>)
        ensures
            match r {
                Some(i) => i < self.entries@.len() && self.entries@[i as int].id@ == id@
                    && self@.dom().contains(id@),
                None => !self@.dom().contains(id@),
            },
    {
        let key = String::from_str(id);
        let n = self.entries.len();
        let mut i: usize = 0;
        while i < n
            invariant
                i <= n,
                n == self.entries@.len(),
                key@ == id@,
                forall|j: int| 0 <= j < i ==> self.entries@[j].id@ != id@,
            decreases n - i,
        {
            if self.entries[i].id == key {
                proof {
                    assert(self.contains_id(id@));
                }
                return Some(i);
            }
            i = i + 1;
        }
        proof {
            assert(!self.contains_id(id@));
        }
        None
    }

    /// Membership of `id` in the registry.
    pub fn is_running(&self, id: &str) -> (r: bool)
        ensures
            r == self@.dom().contains(id@),
    {
        match self.find(id) {
            Some(_) => true,
            None => false,
        }
    }

    /// The validation gate of spawn. `Ok` exactly when `id` has no live
    /// record and `command` is not blank; a duplicate identifier is reported
    /// ahead of a blank command, and the registry is left untouched either
    /// way.
    pub fn spawn_check(&self, id: &str, command: &str) -> (r: Result<(), ProcessError>)
        ensures
            r is Ok <==> (!self@.dom().contains(id@) && !is_blank(command@)),
            self@.dom().contains(id@) ==> r == Err::<(), ProcessError>(ProcessError::DuplicateId),
            (!self@.dom().contains(id@) && is_blank(command@)) ==> r == Err::<(),
                ProcessError,
            >(ProcessError::InvalidCommand),
    {
        if self.is_running(id) {
            Err(ProcessError::DuplicateId)
        } else if is_blank_command(command) {
            Err(ProcessError::InvalidCommand)
        } else {
            Ok(())
        }
    }

    /// Record a launch the operating system reported as successful: a fresh
    /// record for `id` with the given process id, an empty log buffer and the
    /// current wall clock as its start time. Every other record is untouched.
    pub fn register_spawn(&mut self, id: String, pid: u32)
        requires
            old(self).wf(),
            !old(self)@.dom().contains(id@),
        ensures
            final(self).wf(),
            final(self)@.dom() =~= old(self)@.dom().insert(id@),
            final(self)@[id@].pid == pid,
            final(self)@[id@].logs =~= Seq::<Seq<char>>::empty(),
            forall|k: Seq<char>|
                #[trigger] old(self)@.dom().contains(k) ==> final(self)@[k] == old(self)@[k],
    {
        let started_at_ms = now_millis();
        let record = ProcessRecord { pid, started_at_ms, logs: LogBuffer::new() };
        let ghost o = *self;
        let ghost n = self.entries@.len() as int;
        self.entries.push(Entry { id, record });
        proof {
            let s = *self;
            assert(!o.contains_id(id@));
            assert(s.entries@.len() == n + 1);
            assert(s.entries@[n].id@ == id@);
            assert(forall|i: int| 0 <= i < n ==> s.entries@[i] == o.entries@[i]);
            // well-formedness: the new identifier is fresh, the new buffer empty
            assert forall|i: int, j: int|
                0 <= i < j < s.entries@.len() implies s.entries@[i].id@ != s.entries@[j].id@ by {
                if j < n {
                    assert(o.entries@[i].id@ != o.entries@[j].id@);
                } else {
                    assert(o.entries@[i].id@ != id@);
                }
            }
            assert(forall|i: int|
                0 <= i < s.entries@.len() ==> (#[trigger] s.entries@[i].record).logs.wf());
            // domain: the old identifiers plus the new one
            assert forall|k: Seq<char>| #[trigger]
                s.contains_id(k) implies o.contains_id(k) || k == id@ by {
                let i = choose|i: int| 0 <= i < s.entries@.len() && s.entries@[i].id@ == k;
                if i < n {
                    assert(o.contains_id(k));
                }
            }
            assert forall|k: Seq<char>| o.contains_id(k) implies #[trigger] s.contains_id(k) by {
                let i = choose|i: int| 0 <= i < o.entries@.len() && o.entries@[i].id@ == k;
                assert(s.entries@[i].id@ == k);
            }
            assert(s.contains_id(id@));
            assert(s@.dom() =~= o@.dom().insert(id@));
            // values: the fresh record at the new identifier, old ones untouched
            s.lemma_view_at(id@, n);
            assert forall|k: Seq<char>| #[trigger] o@.dom().contains(k) implies s@[k] == o@[k] by {
                let i = choose|i: int| 0 <= i < o.entries@.len() && o.entries@[i].id@ == k;
                o.lemma_view_at(k, i);
                s.lemma_view_at(k, i);
            }
        }
    }

    /// Remove the record for `id`, if any, and hand back the process id the
    /// caller must shut down. Idempotent: with no live record nothing changes
    /// and there is no victim. Every other record is untouched.
    pub fn kill(&mut self, id: &str) -> (victim: Option<u32>)
        requires
            old(self).wf(),
        ensures
            final(self).wf(),
            final(self)@ =~= old(self)@.remove(id@),
            victim is Some <==> old(self)@.dom().contains(id@),
            old(self)@.dom().contains(id@) ==> victim == Some(old(self)@[id@].pid),
    {
        match self.find(id) {
            Some(i) => {
                let ghost o = *self;
                let ghost n = self.entries@.len() as int;
                let entry = self.entries.remove(i);
                proof {
                    let s = *self;
                    o.lemma_view_at(id@, i as int);
                    assert(s.entries@.len() == n - 1);
                    assert(forall|j: int| 0 <= j < i ==> s.entries@[j] == o.entries@[j]);
                    assert(forall|j: int| i <= j < n - 1 ==> s.entries@[j] == o.entries@[j + 1]);
                    // well-formedness survives removal
                    assert forall|p: int, q: int|
                        0 <= p < q < s.entries@.len() implies s.entries@[p].id@
                        != s.entries@[q].id@ by {
                        let p0 = if p < i {
                            p
                        } else {
                            p + 1
                        };
                        let q0 = if q < i {
                            q
                        } else {
                            q + 1
                        };
                        assert(o.entries@[p0].id@ != o.entries@[q0].id@);
                    }
                    assert(forall|j: int|
                        0 <= j < s.entries@.len() ==> (#[trigger] s.entries@[j].record).logs.wf());
                    // domain: everything but the removed identifier
                    assert forall|k: Seq<char>| #[trigger]
                        s.contains_id(k) implies o.contains_id(k) && k != id@ by {
                        let j = choose|j: int|
                            0 <= j < s.entries@.len() && s.entries@[j].id@ == k;
                        let j0 = if j < i {
                            j
                        } else {
                            j + 1
                        };
                        assert(o.entries@[j0].id@ == k);
                        if j0 < i {
                            assert(o.entries@[j0].id@ != o.entries@[i as int].id@);
                        } else {
                            assert(o.entries@[i as int].id@ != o.entries@[j0].id@);
                        }
                    }
                    assert forall|k: Seq<char>|
                        o.contains_id(k) && k != id@ implies #[trigger] s.contains_id(k) by {
                        let j0 = choose|j: int|
                            0 <= j < o.entries@.len() && o.entries@[j].id@ == k;
                        if j0 < i {
                            assert(s.entries@[j0].id@ == k);
                        } else {
                            o.lemma_view_at(k, j0);
                            assert(j0 != i);
                            assert(s.entries@[j0 - 1].id@ == k);
                        }
                    }
                    // values are untouched
                    assert forall|k: Seq<char>| #[trigger]
                        s@.dom().contains(k) implies s@[k] == o@[k] by {
                        let j = choose|j: int|
                            0 <= j < s.entries@.len() && s.entries@[j].id@ == k;
                        s.lemma_view_at(k, j);
                        if j < i {
                            o.lemma_view_at(k, j);
                        } else {
                            o.lemma_view_at(k, j + 1);
                        }
                    }
                    assert(s@ =~= o@.remove(id@));
                }
                Some(entry.record.pid)
            },
            None => {
                proof {
                    assert(self@ =~= old(self)@.remove(id@));
                }
                None
            },
        }
    }

    /// Elapsed wall-clock seconds since the record for `id` was registered;
    /// absent when there is no live record.
    pub fn get_running_time(&self, id: &str) -> (r: Option<u64>)
        ensures
            r is Some <==> self@.dom().contains(id@),
    {
        match self.find(id) {
            Some(i) => Some(elapsed_seconds(self.entries[i].record.started_at_ms, now_millis())),
            None => None,
        }
    }

    /// A snapshot of the retained log lines for `id`, oldest first;
    /// `NotFound` exactly when there is no live record.
    pub fn get_logs(&self, id: &str) -> (r: Result<Vec<String>, ProcessError>)
        requires
            self.wf(),
        ensures
            r is Ok <==> self@.dom().contains(id@),
            r matches Ok(lines) ==> lines.deep_view() == self@[id@].logs,
            r matches Ok(lines) ==> lines@.len() <= LOG_CAPACITY,
            r is Err ==> r == Err::<Vec<String>, ProcessError>(ProcessError::NotFound),
    {
        match self.find(id) {
            Some(i) => {
                proof {
                    self.lemma_view_at(id@, i as int);
                }
                Ok(self.entries[i].record.logs.snapshot())
            },
            None => Err(ProcessError::NotFound),
        }
    }

    /// Append one captured output line to the buffer of `id`, tagged with its
    /// stream of origin, under the bounded-insertion rule. Returns whether a
    /// live record was found; lines for identifiers without one are dropped.
    /// Every other record, and everything but the logs of this one, is
    /// untouched.
    pub fn append_log(&mut self, id: &str, from_err: bool, line: &str) -> (found: bool)
        requires
            old(self).wf(),
        ensures
            final(self).wf(),
            found == old(self)@.dom().contains(id@),
            final(self)@.dom() =~= old(self)@.dom(),
            found ==> final(self)@[id@].logs == push_bounded(
                old(self)@[id@].logs,
                tagged_line(from_err, line@),
            ),
            found ==> final(self)@[id@].logs.len() <= LOG_CAPACITY,
            found ==> final(self)@[id@].pid == old(self)@[id@].pid,
            found ==> final(self)@[id@].started_at_ms == old(self)@[id@].started_at_ms,
            forall|k: Seq<char>|
                k != id@ && #[trigger] old(self)@.dom().contains(k) ==> final(self)@[k] == old(
                    self,
                )@[k],
    {
        match self.find(id) {
            Some(i) => {
                let ghost o = *self;
                let mut entry = self.entries.remove(i);
                entry.record.logs.push(tag_line(from_err, line));
                self.entries.insert(i, entry);
                proof {
                    let s = *self;
                    o.lemma_view_at(id@, i as int);
                    assert(s.entries@ =~= o.entries@.update(i as int, s.entries@[i as int]));
                    assert(s.entries@[i as int].id@ == id@);
                    assert(s.entries@[i as int].record.logs.wf());
                    assert(forall|j: int|
                        0 <= j < s.entries@.len() && j != i ==> s.entries@[j] == o.entries@[j]);
                    assert(forall|j: int|
                        0 <= j < s.entries@.len() ==> s.entries@[j].id@ == o.entries@[j].id@);
                    // well-formedness: identifiers are unchanged positionwise
                    assert(forall|p: int, q: int|
                        0 <= p < q < s.entries@.len() ==> s.entries@[p].id@ != s.entries@[q].id@);
                    assert(forall|j: int|
                        0 <= j < s.entries@.len() ==> (#[trigger] s.entries@[j].record).logs.wf());
                    // same domain
                    assert forall|k: Seq<char>| #[trigger]
                        s.contains_id(k) implies o.contains_id(k) by {
                        let j = choose|j: int|
                            0 <= j < s.entries@.len() && s.entries@[j].id@ == k;
                        assert(o.entries@[j].id@ == k);
                    }
                    assert forall|k: Seq<char>| o.contains_id(k) implies #[trigger] s.contains_id(
                        k,
                    ) by {
                        let j = choose|j: int|
                            0 <= j < o.entries@.len() && o.entries@[j].id@ == k;
                        assert(s.entries@[j].id@ == k);
                    }
                    assert(s@.dom() =~= o@.dom());
                    // the updated record, and every other one
                    s.lemma_view_at(id@, i as int);
                    assert forall|k: Seq<char>|
                        k != id@ && #[trigger] o@.dom().contains(k) implies s@[k] == o@[k] by {
                        let j = choose|j: int|
                            0 <= j < o.entries@.len() && o.entries@[j].id@ == k;
                        o.lemma_view_at(k, j);
                        assert(j != i);
                        s.lemma_view_at(k, j);
                    }
                }
                true
            },
            None => false,
        }
    }
}

/// The lifecycle law for one identifier, over the registry's map view. After
/// a spawn records `id` (`register_spawn` makes the view an insert), `id` is
/// live, so `is_running` answers true and a second spawn is refused as a
/// duplicate by `spawn_check`; after a kill (the view becomes a remove), `id`
/// is no longer live; and killing again changes nothing — kill is idempotent.
pub proof fn lemma_lifecycle(m: Map<Seq<char>, RecordModel>, id: Seq<char>, r: RecordModel)
    ensures
        m.insert(id, r).dom().contains(id),
        !m.insert(id, r).remove(id).dom().contains(id),
        m.insert(id, r).remove(id).remove(id) =~= m.insert(id, r).remove(id),
{
}

/// Killing an identifier with no live record is a no-op: the registry's map
/// view is unchanged by the remove (and `kill` then reports no victim).
pub proof fn lemma_kill_absent(m: Map<Seq<char>, RecordModel>, id: Seq<char>)
    requires
        !m.dom().contains(id),
    ensures
        m.remove(id) =~= m,
{
}

/// Thresholds of the elapsed-seconds reading: under two real seconds the
/// reported running time is below two; at or past two real seconds it is at
/// least two.
pub proof fn lemma_running_time_thresholds(started_at_ms: u64, now_ms: u64)
    requires
        started_at_ms <= now_ms,
    ensures
        now_ms - started_at_ms < 2000 ==> elapsed_seconds_spec(started_at_ms, now_ms) < 2,
        now_ms - started_at_ms >= 2000 ==> elapsed_seconds_spec(started_at_ms, now_ms) >= 2,
{
}

impl View for ProcessManager {
    type V = Map<Seq<char>, RecordModel>;

    closed spec fn view(&self) -> Map<Seq<char>, RecordModel> {
        Map::new(
            |id: Seq<char>| self.contains_id(id),
            |id: Seq<char>| self.entries@[self.idx_of(id)].record@,
        )
    }
}

} // verus!
