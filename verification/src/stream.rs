//! The tagged union behind both selector directions.

use vstd::prelude::*;

verus! {

/// A stream selection: a named file path, the process's standard input, or
/// its standard output. The standard-stream variants record whether the real
/// OS stream was attached to a terminal when the value was constructed.
#[derive(Debug)]
pub enum Stream {
    File { path: String },
    Stdin { tty: bool },
    Stdout { tty: bool },
}

impl Clone for Stream {
    /// Cloning keeps the selection, path and terminal flag included.
    fn clone(&self) -> (r: Self)
        ensures
            r == *self,
    {
        match self {
            Stream::File { path } => Stream::File { path: path.clone() },
            Stream::Stdin { tty } => Stream::Stdin { tty: *tty },
            Stream::Stdout { tty } => Stream::Stdout { tty: *tty },
        }
    }
}

/// Relies on atty::is with atty::Stream::Stdin: reports whether the process's
/// standard input is attached to a terminal. The answer depends on the
/// environment, so nothing is promised of it.
#[verifier::external_body]
fn stdin_is_terminal() -> bool {
    atty::is(atty::Stream::Stdin)
}

/// Relies on atty::is with atty::Stream::Stdout: reports whether the process's
/// standard output is attached to a terminal. The answer depends on the
/// environment, so nothing is promised of it.
#[verifier::external_body]
fn stdout_is_terminal() -> bool {
    atty::is(atty::Stream::Stdout)
}

impl Stream {
    /// The path carried by the `File` variant, if any.
    pub open spec fn spec_path(self) -> Option<Seq<char>> {
        match self {
            Stream::File { path } => Some(path@),
            _ => None,
        }
    }

    /// Whether the selected stream was a terminal at construction time;
    /// always false for a file.
    pub open spec fn spec_is_tty(self) -> bool {
        match self {
            Stream::File { .. } => false,
            Stream::Stdin { tty } => tty,
            Stream::Stdout { tty } => tty,
        }
    }

    /// The human-readable rendering: the literal path for a file, the fixed
    /// label for a standard stream.
    pub open spec fn spec_display(self) -> Seq<char> {
        match self {
            Stream::File { path } => path@,
            Stream::Stdin { .. } => crate::token::stdin_label(),
            Stream::Stdout { .. } => crate::token::stdout_label(),
        }
    }

    /// A selection of the named file, the path kept verbatim.
    pub fn file(path: String) -> (s: Stream)
        ensures
            s == (Stream::File { path }),
    {
        Stream::File { path }
    }

    /// A selection of the standard input stream, capturing whether the real
    /// stream is a terminal right now.
    pub fn stdin() -> (s: Stream)
        ensures
            s is Stdin,
    {
        Stream::Stdin { tty: stdin_is_terminal() }
    }

    /// A selection of the standard output stream, capturing whether the real
    /// stream is a terminal right now.
    pub fn stdout() -> (s: Stream)
        ensures
            s is Stdout,
    {
        Stream::Stdout { tty: stdout_is_terminal() }
    }

    /// True only for a standard-stream selection whose real stream was a
    /// terminal at construction time.
    pub fn is_tty(&self) -> (r: bool)
        ensures
            r == self.spec_is_tty(),
    {
        match self {
            Stream::Stdin { tty } => *tty,
            Stream::Stdout { tty } => *tty,
            Stream::File { .. } => false,
        }
    }

    /// The path, present only for the `File` variant.
    pub fn path(&self) -> (r: Option<&String>)
        ensures
            r matches Some(p) ==> self.spec_path() == Some(p@),
            r is None <==> self.spec_path() is None,
    {
        match self {
            Stream::File { path } => Some(path),
            _ => None,
        }
    }

    /// The human-readable rendering of the selection.
    pub fn display_name(&self) -> (r: String)
        ensures
            r@ == self.spec_display(),
    {
        match self {
            Stream::File { path } => path.clone(),
            Stream::Stdin { .. } => "<stdin>".to_owned(),
            Stream::Stdout { .. } => "<stdout>".to_owned(),
        }
    }
}

} // verus!
