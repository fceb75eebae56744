//! The output-direction selector: either a named file or standard output.

use crate::stream::Stream;
use crate::token::names_stdout;
use crate::token::str_eq;
use vstd::pervasive::unreached;
use vstd::prelude::*;
use vstd::string::StringExecFns;

verus! {

/// An output selection: either a file to write or the standard output
/// stream. By construction it never holds the standard-input variant.
#[derive(Debug)]
pub struct Output {
    stream: Stream,
}

impl Clone for Output {
    /// Cloning keeps the selection.
    fn clone(&self) -> (r: Self)
        ensures
            r.stream() == self.stream(),
    {
        proof {
            use_type_invariant(self);
        }
        Output { stream: self.stream.clone() }
    }
}

/// The resolved target of an output selector: the caller either creates and
/// truncates the named file for writing, or locks the process's standard
/// output and writes to it.
#[derive(Debug, Clone, PartialEq, Eq)]
pub enum OutputTarget {
    File { path: String },
    Stdout { tty: bool },
}

impl Output {
    /// The underlying stream selection.
    pub closed spec fn stream(self) -> Stream {
        self.stream
    }

    /// An output never selects the standard input stream.
    #[verifier::type_invariant]
    pub open spec fn wf(self) -> bool {
        !(self.stream() is Stdin)
    }

    /// Classify a raw command-line token: the empty token, the stdio marker
    /// `-` and the alias `<stdout>` select standard output; any other token
    /// is kept verbatim as a file path. Classification never fails.
    pub fn from_token(token: &str) -> (out: Output)
        ensures
            names_stdout(token@) ==> out.stream() is Stdout,
            !names_stdout(token@) ==> (out.stream() matches Stream::File { path } && path@
                == token@),
    {
        if token.is_empty() || str_eq(token, "-") || str_eq(token, "<stdout>") {
            Output { stream: Stream::stdout() }
        } else {
            Output { stream: Stream::file(token.to_owned()) }
        }
    }

    /// Resolve the selection, consuming the selector. The standard-input
    /// variant is impossible by construction, so the result is always a file
    /// path or standard output.
    pub fn open(self) -> (t: OutputTarget)
        ensures
            self.stream() matches Stream::File { path } ==> t == (OutputTarget::File { path }),
            self.stream() matches Stream::Stdout { tty } ==> t == (OutputTarget::Stdout { tty }),
    {
        proof {
            use_type_invariant(&self);
        }
        match self.stream {
            Stream::File { path } => OutputTarget::File { path },
            Stream::Stdout { tty } => OutputTarget::Stdout { tty },
            Stream::Stdin { .. } => unreached(),
        }
    }

    /// True only if standard output was selected and it was a terminal when
    /// the selector was constructed; always false for a file.
    pub fn is_tty(&self) -> (r: bool)
        ensures
            r == self.stream().spec_is_tty(),
    {
        self.stream.is_tty()
    }

    /// The path, present only if a file was selected.
    pub fn path(&self) -> (r: Option<&String>)
        ensures
            r matches Some(p) ==> self.stream().spec_path() == Some(p@),
            r is None <==> self.stream().spec_path() is None,
    {
        self.stream.path()
    }

    /// The human-readable rendering: the literal path for a file, the label
    /// `<stdout>` for standard output.
    pub fn display_name(&self) -> (r: String)
        ensures
            r@ == self.stream().spec_display(),
    {
        self.stream.display_name()
    }
}

impl Default for Output {
    /// The selection an absent token defaults to: standard output.
    fn default() -> (out: Output)
        ensures
            out.stream() is Stdout,
    {
        Output { stream: Stream::stdout() }
    }
}

/// The message of the error reported when the named file cannot be created
/// for output: it embeds the direction, the literal path, and the underlying
/// OS error.
pub open spec fn output_open_error_text(path: Seq<char>, cause: Seq<char>) -> Seq<char> {
    "Failed to open output file `"@ + path + "`. Cause: "@ + cause
}

/// Build the output-direction open-failure message for a path and the text
/// of the underlying OS error.
pub fn output_open_error_message(path: &str, cause: &str) -> (m: String)
    ensures
        m@ == output_open_error_text(path@, cause@),
{
    let mut m = "Failed to open output file `".to_owned();
    m.append(path);
    m.append("`. Cause: ");
    m.append(cause);
    m
}

/// An output selector holding a file path never reports a terminal: only the
/// standard-stream selection can be attached to one.
pub proof fn lemma_output_file_not_tty(out: Output)
    requires
        out.stream() is File,
    ensures
        !out.stream().spec_is_tty(),
{
}

/// Round trip for file tokens: a token that does not name standard output is
/// kept verbatim as the path, and the selector's display name is exactly the
/// original token.
pub proof fn lemma_output_token_round_trip(out: Output, token: Seq<char>)
    requires
        !names_stdout(token),
        out.stream() matches Stream::File { path } && path@ == token,
    ensures
        out.stream().spec_path() == Some(token),
        out.stream().spec_display() == token,
{
}

} // verus!
