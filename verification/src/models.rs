//! Data model for terminal definitions as the surrounding layers exchange
//! them: a terminal's identity, its configured command, and its last-known
//! process status, plus the versioned document that holds the whole list.

use vstd::prelude::*;

verus! {

/// Lifecycle status recorded for a terminal. The process core itself only
/// ever moves a terminal between `Running` and `Stopped`; `Error` is
/// representable for the surrounding data model but never produced here.
#[derive(Clone, Copy, Debug, PartialEq, Eq, Structural)]
pub enum ProcessStatus {
    Running,
    Stopped,
    Error,
}

/// The caller-supplied fields of a terminal definition.
#[derive(Debug)]
pub struct TerminalData {
    pub name: String,
    pub path: String,
    pub command: String,
}

/// A stored terminal definition together with its last-known process state.
#[derive(Debug)]
pub struct Terminal {
    pub id: String,
    pub name: String,
    pub path: String,
    pub command: String,
    pub status: ProcessStatus,
    pub created_at: String,
    pub last_run: Option<String>,
    pub running_time: u64,
}

impl Terminal {
    /// An exact copy of the definition. A derived `clone` on a type with
    /// `String` fields carries no contract, so the copy is spelled out.
    pub fn duplicate(&self) -> (r: Terminal)
        ensures
            r == *self,
    {
        Terminal {
            id: self.id.clone(),
            name: self.name.clone(),
            path: self.path.clone(),
            command: self.command.clone(),
            status: self.status,
            created_at: self.created_at.clone(),
            last_run: match &self.last_run {
                Some(s) => Some(s.clone()),
                None => None,
            },
            running_time: self.running_time,
        }
    }
}

/// The versioned on-disk document: a format version and the terminal list.
#[derive(Debug)]
pub struct Config {
    pub version: String,
    pub terminals: Vec<Terminal>,
}

impl Default for Config {
    /// An empty document at the current format version.
    fn default() -> (c: Config)
        ensures
            c.version@ == "1.0.0"@,
            c.terminals@ =~= Seq::<Terminal>::empty(),
    {
        Config { version: String::from_str("1.0.0"), terminals: Vec::new() }
    }
}

} // verus!
