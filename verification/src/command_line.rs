//! Construction of the shell invocation for a spawned terminal.
//!
//! The embedding program's own environment has a minimal `PATH`, so before a
//! command is handed to the shell an effective `PATH` is built by prepending,
//! in a fixed priority order, the well-known directories of common version
//! managers, language-specific tool directories and system package-manager
//! prefixes ahead of the inherited `PATH`. The command is then wrapped in an
//! `export PATH=...;` prefix for a login shell to execute. The caller reads
//! the home directory and the inherited `PATH` from the environment and the
//! functions here do the rest, so the construction itself is verified.

use vstd::prelude::*;
use vstd::string::StrSliceExecFns;

verus! {

/// ASCII whitespace, the characters a blank command may consist of.
pub open spec fn is_space_char(c: char) -> bool {
    c == ' ' || c == '\t' || c == '\n' || c == '\r'
}

/// A command is blank when it is empty or holds only whitespace; such a
/// command is rejected before anything is spawned.
pub open spec fn is_blank(s: Seq<char>) -> bool {
    forall|i: int| 0 <= i < s.len() ==> is_space_char(s[i])
}

/// Whether `command` is empty or whitespace-only.
pub fn is_blank_command(command: &str) -> (r: bool)
    ensures
        r == is_blank(command@),
{
    let n = command.unicode_len();
    let mut i: usize = 0;
    while i < n
        invariant
            i <= n,
            n == command@.len(),
            forall|j: int| 0 <= j < i ==> is_space_char(command@[j]),
        decreases n - i,
    {
        let c = command.get_char(i);
        if !(c == ' ' || c == '\t' || c == '\n' || c == '\r') {
            return false;
        }
        i = i + 1;
    }
    true
}

/// The extra search directories, highest priority first: version-manager
/// shims, then language-specific tool directories under the home directory,
/// then the system package-manager prefixes.
pub open spec fn extra_paths(home: Seq<char>) -> Seq<char> {
    home + "/.rbenv/shims:"@ + home + "/.rvm/bin:"@ + home + "/.asdf/shims:"@ + home
        + "/.nodenv/shims:"@ + home + "/.pyenv/shims:"@ + home + "/.bun/bin:"@ + home
        + "/.cargo/bin:"@ + home + "/.local/bin:"@ + home + "/Library/pnpm:"@ + home
        + "/.deno/bin:"@ + "/opt/homebrew/bin:"@ + "/usr/local/bin"@
}

/// The effective `PATH`: the extra directories ahead of the inherited value.
pub open spec fn effective_path(home: Seq<char>, inherited: Seq<char>) -> Seq<char> {
    extra_paths(home) + ":"@ + inherited
}

/// The full text handed to the login shell: the effective `PATH` exported
/// inline, then the user's command.
pub open spec fn shell_command(home: Seq<char>, inherited: Seq<char>, command: Seq<char>) -> Seq<
    char,
> {
    "export PATH=\""@ + effective_path(home, inherited) + "\"; "@ + command
}

/// Build the shell invocation text for `command`, given the home directory
/// and the inherited `PATH` as the caller read them from the environment.
pub fn build_shell_command(home: &str, inherited_path: &str, command: &str) -> (r: String)
    ensures
        r@ == shell_command(home@, inherited_path@, command@),
{
    let mut r = String::from_str("export PATH=\"");
    r.append(home);
    r.append("/.rbenv/shims:");
    r.append(home);
    r.append("/.rvm/bin:");
    r.append(home);
    r.append("/.asdf/shims:");
    r.append(home);
    r.append("/.nodenv/shims:");
    r.append(home);
    r.append("/.pyenv/shims:");
    r.append(home);
    r.append("/.bun/bin:");
    r.append(home);
    r.append("/.cargo/bin:");
    r.append(home);
    r.append("/.local/bin:");
    r.append(home);
    r.append("/Library/pnpm:");
    r.append(home);
    r.append("/.deno/bin:");
    r.append("/opt/homebrew/bin:");
    r.append("/usr/local/bin");
    r.append(":");
    r.append(inherited_path);
    r.append("\"; ");
    r.append(command);
    proof {
        assert(r@ =~= shell_command(home@, inherited_path@, command@));
    }
    r
}

} // verus!
