//! Rules for the stored list of terminal definitions.
//!
//! The surrounding layer keeps a list of [`Terminal`] definitions, loads and
//! saves it, and dispatches user requests against it. The decisions it makes
//! — whether an addition or update is valid, which element a request touches,
//! and how the last-known statuses are reconciled against the live registry —
//! are made here, over plain values. The caller performs the I/O around them
//! (the existence check on a working directory, persistence, identifier and
//! timestamp generation) and hands in the results.

use vstd::prelude::*;
use crate::command_line::{is_blank, is_blank_command};
use crate::models::{ProcessStatus, Terminal, TerminalData};
use crate::registry::ProcessManager;

verus! {

/// Failures of the definition-list operations.
#[derive(Clone, Copy, Debug, PartialEq, Eq, Structural)]
pub enum CatalogError {
    /// The supplied command text is empty or whitespace-only.
    InvalidCommand,
    /// Another definition already carries the supplied display name.
    DuplicateName,
    /// No definition carries the supplied identifier.
    NotFound,
    /// The definition's process is live, so it may not be edited.
    TerminalRunning,
}

/// Whether some definition in `s` carries the identifier `id`.
pub open spec fn contains_terminal(s: Seq<Terminal>, id: Seq<char>) -> bool {
    exists|i: int| 0 <= i < s.len() && s[i].id@ == id
}

/// Whether some definition in `s` carries the display name `name`.
pub open spec fn contains_name(s: Seq<Terminal>, name: Seq<char>) -> bool {
    exists|i: int| 0 <= i < s.len() && s[i].name@ == name
}

/// Index of the first definition carrying `id`, if any.
pub fn find_terminal(terminals: &Vec<Terminal>, id: &str) -> (r: Option<usize>)
    ensures
        match r {
            Some(i) => i < terminals@.len() && terminals@[i as int].id@ == id@,
            None => !contains_terminal(terminals@, id@),
        },
{
    let key = String::from_str(id);
    let n = terminals.len();
    let mut i: usize = 0;
    while i < n
        invariant
            i <= n,
            n == terminals@.len(),
            key@ == id@,
            forall|j: int| 0 <= j < i ==> terminals@[j].id@ != id@,
        decreases n - i,
    {
        if terminals[i].id == key {
            return Some(i);
        }
        i = i + 1;
    }
    None
}

/// Whether any definition carries the display name.
fn has_name(terminals: &Vec<Terminal>, name: &String) -> (r: bool)
    ensures
        r == contains_name(terminals@, name@),
{
    let n = terminals.len();
    let mut i: usize = 0;
    while i < n
        invariant
            i <= n,
            n == terminals@.len(),
            forall|j: int| 0 <= j < i ==> terminals@[j].name@ != name@,
        decreases n - i,
    {
        if terminals[i].name == *name {
            return true;
        }
        i = i + 1;
    }
    false
}

/// Add a definition built from `data`, under a caller-generated identifier
/// and creation timestamp. Refused when the command is blank or the display
/// name is already taken (in that order); the caller has already checked that
/// the working directory exists. On success the new definition is appended —
/// stopped, never run, no accumulated running time — and a copy of it is
/// returned.
pub fn add_terminal(terminals: &mut Vec<Terminal>, data: TerminalData, id: String, created_at: String) -> (r:
    Result<Terminal, CatalogError>)
    ensures
        r is Ok <==> (!is_blank(data.command@) && !contains_name(old(terminals)@, data.name@)),
        is_blank(data.command@) ==> r == Err::<Terminal, CatalogError>(
            CatalogError::InvalidCommand,
        ),
        (!is_blank(data.command@) && contains_name(old(terminals)@, data.name@)) ==> r == Err::<
            Terminal,
            CatalogError,
        >(CatalogError::DuplicateName),
        r is Err ==> final(terminals)@ =~= old(terminals)@,
        r matches Ok(t) ==> {
            &&& final(terminals)@ =~= old(terminals)@.push(t)
            &&& t.id == id
            &&& t.name == data.name
            &&& t.path == data.path
            &&& t.command == data.command
            &&& t.status == ProcessStatus::Stopped
            &&& t.created_at == created_at
            &&& t.last_run matches None::<String>
            &&& t.running_time == 0
        },
{
    if is_blank_command(data.command.as_str()) {
        return Err(CatalogError::InvalidCommand);
    }
    if has_name(terminals, &data.name) {
        return Err(CatalogError::DuplicateName);
    }
    let terminal = Terminal {
        id,
        name: data.name,
        path: data.path,
        command: data.command,
        status: ProcessStatus::Stopped,
        created_at,
        last_run: None,
        running_time: 0,
    };
    let copy = terminal.duplicate();
    terminals.push(terminal);
    Ok(copy)
}

/// Replace the caller-editable fields of the definition carrying `id` with
/// those of `data`. Refused when no definition carries `id` or when its
/// process is live in `manager`; the caller has already checked the new
/// working directory. On success a copy of the updated definition is
/// returned.
pub fn update_terminal(
    terminals: &mut Vec<Terminal>,
    manager: &ProcessManager,
    id: &str,
    data: TerminalData,
) -> (r: Result<Terminal, CatalogError>)
    ensures
        r is Err ==> final(terminals)@ =~= old(terminals)@,
        !contains_terminal(old(terminals)@, id@) ==> r == Err::<Terminal, CatalogError>(
            CatalogError::NotFound,
        ),
        (contains_terminal(old(terminals)@, id@) && manager@.dom().contains(id@)) ==> r == Err::<
            Terminal,
            CatalogError,
        >(CatalogError::TerminalRunning),
        r is Ok <==> (contains_terminal(old(terminals)@, id@) && !manager@.dom().contains(id@)),
        r matches Ok(t) ==> exists|i: int|
            {
                &&& 0 <= i < old(terminals)@.len()
                &&& old(terminals)@[i].id@ == id@
                &&& t == (Terminal {
                    name: data.name,
                    path: data.path,
                    command: data.command,
                    ..old(terminals)@[i]
                })
                &&& final(terminals)@ =~= old(terminals)@.update(i, t)
            },
{
    let found = find_terminal(terminals, id);
    match found {
        None => Err(CatalogError::NotFound),
        Some(i) => {
            if manager.is_running(id) {
                return Err(CatalogError::TerminalRunning);
            }
            let old_entry = terminals[i].duplicate();
            let updated = Terminal {
                name: data.name,
                path: data.path,
                command: data.command,
                ..old_entry
            };
            let copy = updated.duplicate();
            terminals.set(i, updated);
            proof {
                assert(copy == (Terminal {
                    name: data.name,
                    path: data.path,
                    command: data.command,
                    ..old(terminals)@[i as int]
                }));
                assert(terminals@ =~= old(terminals)@.update(i as int, copy));
            }
            Ok(copy)
        },
    }
}

/// Remove the definition carrying `id`; `NotFound` when there is none. The
/// caller kills any live process for `id` first (the registry's kill is
/// idempotent, so it may do so unconditionally). The surviving definitions
/// keep their relative order.
pub fn delete_terminal(terminals: &mut Vec<Terminal>, id: &str) -> (r: Result<(), CatalogError>)
    ensures
        r is Ok <==> contains_terminal(old(terminals)@, id@),
        r is Err ==> r == Err::<(), CatalogError>(CatalogError::NotFound) && final(terminals)@
            =~= old(terminals)@,
        r is Ok ==> exists|i: int|
            {
                &&& 0 <= i < old(terminals)@.len()
                &&& old(terminals)@[i].id@ == id@
                &&& final(terminals)@ =~= old(terminals)@.remove(i)
            },
{
    match find_terminal(terminals, id) {
        None => Err(CatalogError::NotFound),
        Some(i) => {
            terminals.remove(i);
            Ok(())
        },
    }
}

/// Record a successful start on the definition carrying `id`: its status
/// becomes `Running` and its last-run timestamp the caller-supplied one.
pub fn mark_started(terminals: &mut Vec<Terminal>, id: &str, last_run: String) -> (r: Result<
    (),
    CatalogError,
>)
    ensures
        r is Ok <==> contains_terminal(old(terminals)@, id@),
        r is Err ==> r == Err::<(), CatalogError>(CatalogError::NotFound) && final(terminals)@
            =~= old(terminals)@,
        r is Ok ==> exists|i: int|
            {
                &&& 0 <= i < old(terminals)@.len()
                &&& old(terminals)@[i].id@ == id@
                &&& final(terminals)@ =~= old(terminals)@.update(
                    i,
                    Terminal {
                        status: ProcessStatus::Running,
                        last_run: Some(last_run),
                        ..old(terminals)@[i]
                    },
                )
            },
{
    match find_terminal(terminals, id) {
        None => Err(CatalogError::NotFound),
        Some(i) => {
            let mut t = terminals[i].duplicate();
            t.status = ProcessStatus::Running;
            t.last_run = Some(last_run);
            terminals.set(i, t);
            Ok(())
        },
    }
}

/// Record a stop on the definition carrying `id`: its status becomes
/// `Stopped` and, when the registry still had a reading, its accumulated
/// running time is replaced by that reading.
pub fn mark_stopped(terminals: &mut Vec<Terminal>, id: &str, running_time: Option<u64>) -> (r:
    Result<(), CatalogError>)
    ensures
        r is Ok <==> contains_terminal(old(terminals)@, id@),
        r is Err ==> r == Err::<(), CatalogError>(CatalogError::NotFound) && final(terminals)@
            =~= old(terminals)@,
        r is Ok ==> exists|i: int|
            {
                &&& 0 <= i < old(terminals)@.len()
                &&& old(terminals)@[i].id@ == id@
                &&& final(terminals)@ =~= old(terminals)@.update(
                    i,
                    Terminal {
                        status: ProcessStatus::Stopped,
                        running_time: match running_time {
                            Some(s) => s,
                            None => old(terminals)@[i].running_time,
                        },
                        ..old(terminals)@[i]
                    },
                )
            },
{
    match find_terminal(terminals, id) {
        None => Err(CatalogError::NotFound),
        Some(i) => {
            let mut t = terminals[i].duplicate();
            t.status = ProcessStatus::Stopped;
            match running_time {
                Some(s) => {
                    t.running_time = s;
                },
                None => {},
            }
            terminals.set(i, t);
            Ok(())
        },
    }
}

/// Reconcile the last-known statuses against the live registry: every
/// definition marked `Running` whose process is no longer live becomes
/// `Stopped`; everything else is untouched. Returns whether anything changed,
/// so the caller knows to persist the list.
pub fn reconcile_statuses(terminals: &mut Vec<Terminal>, manager: &ProcessManager) -> (changed:
    bool)
    ensures
        final(terminals)@.len() == old(terminals)@.len(),
        forall|i: int|
            0 <= i < old(terminals)@.len() ==> final(terminals)@[i] == (if old(terminals)@[i].status
                == ProcessStatus::Running && !manager@.dom().contains(old(terminals)@[i].id@) {
                Terminal { status: ProcessStatus::Stopped, ..old(terminals)@[i] }
            } else {
                old(terminals)@[i]
            }),
        changed == exists|i: int|
            0 <= i < old(terminals)@.len() && old(terminals)@[i].status == ProcessStatus::Running
                && !manager@.dom().contains(old(terminals)@[i].id@),
{
    let n = terminals.len();
    let mut changed = false;
    let mut i: usize = 0;
    while i < n
        invariant
            i <= n,
            n == terminals@.len(),
            terminals@.len() == old(terminals)@.len(),
            forall|j: int| i <= j < n ==> terminals@[j] == old(terminals)@[j],
            forall|j: int|
                0 <= j < i ==> terminals@[j] == (if old(terminals)@[j].status
                    == ProcessStatus::Running && !manager@.dom().contains(old(terminals)@[j].id@) {
                    Terminal { status: ProcessStatus::Stopped, ..old(terminals)@[j] }
                } else {
                    old(terminals)@[j]
                }),
            changed == exists|j: int|
                0 <= j < i && old(terminals)@[j].status == ProcessStatus::Running
                    && !manager@.dom().contains(old(terminals)@[j].id@),
        decreases n - i,
    {
        if terminals[i].status == ProcessStatus::Running && !manager.is_running(
            terminals[i].id.as_str(),
        ) {
            let mut t = terminals[i].duplicate();
            t.status = ProcessStatus::Stopped;
            terminals.set(i, t);
            changed = true;
        }
        i = i + 1;
    }
    changed
}

/// The textual status answered for a live-state query.
pub fn status_label(running: bool) -> (r: String)
    ensures
        running ==> r@ == "running"@,
        !running ==> r@ == "stopped"@,
{
    if running {
        String::from_str("running")
    } else {
        String::from_str("stopped")
    }
}

} // verus!
