//! The input-direction selector: either a named file or standard input.

use crate::stream::Stream;
use crate::token::names_stdin;
use crate::token::str_eq;
use vstd::pervasive::unreached;
use vstd::prelude::*;
use vstd::string::StringExecFns;

verus! {

/// An input selection: either a file to read or the standard input stream.
/// By construction it never holds the standard-output variant.
#[derive(Debug)]
pub struct Input {
    stream: Stream,
}

impl Clone for Input {
    /// Cloning keeps the selection.
    fn clone(&self) -> (r: Self)
        ensures
            r.stream() == self.stream(),
    {
        proof {
            use_type_invariant(self);
        }
        Input { stream: self.stream.clone() }
    }
}

/// The resolved target of an input selector: the caller either opens the
/// named file for reading, or locks the process's standard input and reads
/// from it.
#[derive(Debug, Clone, PartialEq, Eq)]
pub enum InputTarget {
    File { path: String },
    Stdin { tty: bool },
}

impl Input {
    /// The underlying stream selection.
    pub closed spec fn stream(self) -> Stream {
        self.stream
    }

    /// An input never selects the standard output stream.
    #[verifier::type_invariant]
    pub open spec fn wf(self) -> bool {
        !(self.stream() is Stdout)
    }

    /// Classify a raw command-line token: the empty token, the stdio marker
    /// `-` and the alias `<stdin>` select standard input; any other token is
    /// kept verbatim as a file path. Classification never fails.
    pub fn from_token(token: &str) -> (inp: Input)
        ensures
            names_stdin(token@) ==> inp.stream() is Stdin,
            !names_stdin(token@) ==> (inp.stream() matches Stream::File { path } && path@
                == token@),
    {
        if token.is_empty() || str_eq(token, "-") || str_eq(token, "<stdin>") {
            Input { stream: Stream::stdin() }
        } else {
            Input { stream: Stream::file(token.to_owned()) }
        }
    }

    /// Resolve the selection, consuming the selector. The standard-output
    /// variant is impossible by construction, so the result is always a file
    /// path or standard input.
    pub fn open(self) -> (t: InputTarget)
        ensures
            self.stream() matches Stream::File { path } ==> t == (InputTarget::File { path }),
            self.stream() matches Stream::Stdin { tty } ==> t == (InputTarget::Stdin { tty }),
    {
        proof {
            use_type_invariant(&self);
        }
        match self.stream {
            Stream::File { path } => InputTarget::File { path },
            Stream::Stdin { tty } => InputTarget::Stdin { tty },
            Stream::Stdout { .. } => unreached(),
        }
    }

    /// True only if standard input was selected and it was a terminal when
    /// the selector was constructed; always false for a file.
    pub fn is_tty(&self) -> (r: bool)
        ensures
            r == self.stream().spec_is_tty(),
    {
        self.stream.is_tty()
    }

    /// The path, present only if a file was selected.
    pub fn path(&self) -> (r: Option<&String>)
        ensures
            r matches Some(p) ==> self.stream().spec_path() == Some(p@),
            r is None <==> self.stream().spec_path() is None,
    {
        self.stream.path()
    }

    /// The human-readable rendering: the literal path for a file, the label
    /// `<stdin>` for standard input.
    pub fn display_name(&self) -> (r: String)
        ensures
            r@ == self.stream().spec_display(),
    {
        self.stream.display_name()
    }
}

impl Default for Input {
    /// The selection an absent token defaults to: standard input.
    fn default() -> (inp: Input)
        ensures
            inp.stream() is Stdin,
    {
        Input { stream: Stream::stdin() }
    }
}

/// The message of the error reported when the named file cannot be opened
/// for input: it embeds the direction, the literal path, and the underlying
/// OS error.
pub open spec fn input_open_error_text(path: Seq<char>, cause: Seq<char>) -> Seq<char> {
    "Failed to open input file `"@ + path + "`. Cause: "@ + cause
}

/// Build the input-direction open-failure message for a path and the text of
/// the underlying OS error.
pub fn input_open_error_message(path: &str, cause: &str) -> (m: String)
    ensures
        m@ == input_open_error_text(path@, cause@),
{
    let mut m = "Failed to open input file `".to_owned();
    m.append(path);
    m.append("`. Cause: ");
    m.append(cause);
    m
}

/// An input selector holding a file path never reports a terminal: only the
/// standard-stream selection can be attached to one.
pub proof fn lemma_input_file_not_tty(inp: Input)
    requires
        inp.stream() is File,
    ensures
        !inp.stream().spec_is_tty(),
{
}

/// Round trip for file tokens: a token that does not name standard input is
/// kept verbatim as the path, and the selector's display name is exactly the
/// original token.
pub proof fn lemma_input_token_round_trip(inp: Input, token: Seq<char>)
    requires
        !names_stdin(token),
        inp.stream() matches Stream::File { path } && path@ == token,
    ensures
        inp.stream().spec_path() == Some(token),
        inp.stream().spec_display() == token,
{
}

} // verus!
