//! The runner's user-facing lines: error lines are wrapped in ANSI red so
//! they stand out, and the two hook-path failures each carry their exact
//! message. Both failures end the run early, before any hook is invoked, yet
//! the process still exits with code 0.

use vstd::prelude::*;

verus! {

/// `msg` wrapped in the ANSI escapes that render it red on a terminal.
pub open spec fn colored_error_line(msg: Seq<char>) -> Seq<char> {
    "\u{1b}[31m"@ + msg + "\u{1b}[0m"@
}

/// Wraps a message in the red ANSI escapes.
pub fn color_error(msg: &str) -> (r: String)
    ensures
        r@ == colored_error_line(msg@),
{
    let mut r = String::new();
    r.append("\u{1b}[31m");
    r.append(msg);
    r.append("\u{1b}[0m");
    proof {
        assert(r@ =~= colored_error_line(msg@));
    }
    r
}

/// Why a supplied hook path cannot be invoked.
#[derive(Clone, Copy, Debug, PartialEq, Eq, Structural)]
pub enum HookPathError {
    /// No filesystem entry exists at the path.
    NotFound,
    /// The entry exists but lacks execute permission.
    NotExecutable,
}

/// Decides whether a hook path is usable, from what the filesystem reported
/// about it: a missing path is rejected first, an existing but
/// non-executable one second, and only an existing executable path passes.
pub fn check_hook_path(exists: bool, executable: bool) -> (r: Option<HookPathError>)
    ensures
        r == (if !exists {
            Some(HookPathError::NotFound)
        } else if !executable {
            Some(HookPathError::NotExecutable)
        } else {
            None::<HookPathError>
        }),
{
    if !exists {
        Some(HookPathError::NotFound)
    } else if !executable {
        Some(HookPathError::NotExecutable)
    } else {
        None
    }
}

/// The two red lines reported when the hook path does not exist: the
/// unresolved path, then the current `PATH` value.
pub open spec fn not_found_lines(path: Seq<char>, path_env: Seq<char>) -> Seq<Seq<char>> {
    seq![
        colored_error_line("Unable to find auth-hook command "@ + path + " in the PATH."@),
        colored_error_line("(PATH is "@ + path_env + ")"@),
    ]
}

/// Builds the two red lines for a hook path that does not exist.
pub fn hook_not_found_lines(path: &str, path_env: &str) -> (r: Vec<String>)
    ensures
        r.deep_view() == not_found_lines(path@, path_env@),
{
    let mut first = String::new();
    first.append("Unable to find auth-hook command ");
    first.append(path);
    first.append(" in the PATH.");
    let mut second = String::new();
    second.append("(PATH is ");
    second.append(path_env);
    second.append(")");
    let mut r: Vec<String> = Vec::new();
    r.push(color_error(first.as_str()));
    r.push(color_error(second.as_str()));
    proof {
        assert(first@ =~= "Unable to find auth-hook command "@ + path@ + " in the PATH."@);
        assert(second@ =~= "(PATH is "@ + path_env@ + ")"@);
        assert(r.deep_view() =~= not_found_lines(path@, path_env@));
    }
    r
}

/// The red line reported when the hook path exists but is not executable.
pub open spec fn not_executable_line(path: Seq<char>) -> Seq<char> {
    colored_error_line("auth-hook command "@ + path + " exists, but is not executable."@)
}

/// Builds the red line for a hook path that is not executable.
pub fn hook_not_executable_line(path: &str) -> (r: String)
    ensures
        r@ == not_executable_line(path@),
{
    let mut msg = String::new();
    msg.append("auth-hook command ");
    msg.append(path);
    msg.append(" exists, but is not executable.");
    proof {
        assert(msg@ =~= "auth-hook command "@ + path@ + " exists, but is not executable."@);
    }
    color_error(msg.as_str())
}

/// The closing line, printed exactly when no invocation reported an error.
pub open spec fn success_line() -> Seq<char> {
    "The result was successful."@
}

/// Builds the closing success line.
pub fn success_line_of() -> (r: String)
    ensures
        r@ == success_line(),
{
    let mut r = String::new();
    r.append("The result was successful.");
    proof {
        assert(r@ =~= success_line());
    }
    r
}

} // verus!
