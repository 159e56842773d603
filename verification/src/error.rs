//! The error model shared by every part of the library.

use vstd::prelude::*;
use crate::text::push_str;


verus! {

/// Error type used across command parsing, Git interaction, and filesystem
/// operations.
///
/// The type parameter is the text representation: `String` at run time and
/// `Seq<char>` in specifications (see the `View` impl).
#[derive(Debug, Clone)]
pub enum GatError<S = String> {
    /// The user provided an invalid command or option combination.
    Usage(S),
    /// A Git subprocess returned a non-zero status.
    Git { command: S, message: S },
    /// A filesystem or subprocess spawning operation failed.
    Io(S),
    /// The command needs a Git worktree but was run outside one.
    NotGitRepo,
    /// A requested worktree, branch, binary, or external tool was not found.
    NotFound(S),
    /// The requested operation may lose work unless forced explicitly.
    Unsafe(S),
}

/// The specification-level error value.
pub type ErrorView = GatError<Seq<char>>;

impl View for GatError<String> {
    type V = GatError<Seq<char>>;

    open spec fn view(&self) -> GatError<Seq<char>> {
        match self {
            GatError::Usage(m) => GatError::Usage(m@),
            GatError::Git { command, message } => GatError::Git { command: command@, message: message@ },
            GatError::Io(m) => GatError::Io(m@),
            GatError::NotGitRepo => GatError::NotGitRepo,
            GatError::NotFound(m) => GatError::NotFound(m@),
            GatError::Unsafe(m) => GatError::Unsafe(m@),
        }
    }
}

/// Convenient result alias used by all modules.
pub type Result<T> = core::result::Result<T, GatError>;

/// The user-facing message of an error, as `main` prints it.
pub open spec fn error_message(e: ErrorView) -> Seq<char> {
    match e {
        GatError::Usage(m) => "usage error: "@ + m,
        GatError::Git { command, message } => "git command failed: "@ + command + "\n"@ + message,
        GatError::Io(m) => "io error: "@ + m,
        GatError::NotGitRepo => "not inside a Git worktree"@,
        GatError::NotFound(m) => "not found: "@ + m,
        GatError::Unsafe(m) => "refusing unsafe operation: "@ + m,
    }
}

impl GatError<String> {
    /// Renders the concise, actionable message printed for this error.
    pub fn message(&self) -> (r: String)
        ensures
            r@ == error_message(self@),
    {
        let mut out = String::new();
        match self {
            GatError::Usage(m) => {
                push_str(&mut out, "usage error: ");
                push_str(&mut out, m.as_str());
            },
            GatError::Git { command, message } => {
                push_str(&mut out, "git command failed: ");
                push_str(&mut out, command.as_str());
                push_str(&mut out, "\n");
                push_str(&mut out, message.as_str());
            },
            GatError::Io(m) => {
                push_str(&mut out, "io error: ");
                push_str(&mut out, m.as_str());
            },
            GatError::NotGitRepo => {
                push_str(&mut out, "not inside a Git worktree");
            },
            GatError::NotFound(m) => {
                push_str(&mut out, "not found: ");
                push_str(&mut out, m.as_str());
            },
            GatError::Unsafe(m) => {
                push_str(&mut out, "refusing unsafe operation: ");
                push_str(&mut out, m.as_str());
            },
        }
        out
    }
}

/// A `Result` taken by its view.
pub open spec fn result_view<T: View>(r: Result<T>) -> core::result::Result<T::V, ErrorView> {
    match r {
        Ok(v) => Ok(v@),
        Err(e) => Err(e@),
    }
}

/// Builds a usage error from a message.
pub fn usage(m: String) -> (e: GatError)
    ensures
        e@ == GatError::<Seq<char>>::Usage(m@),
{
    GatError::Usage(m)
}

} // verus!
