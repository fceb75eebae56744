//! Classification of raw command-line tokens.
//!
//! A token selects a standard stream when it is the conventional stdio marker
//! `-` or the direction's literal alias (`<stdin>` for input, `<stdout>` for
//! output); any other token is taken verbatim as a file path.

use vstd::prelude::*;
use vstd::string::StrSliceExecFns;

verus! {

/// The conventional single-character marker that selects a standard stream.
pub open spec fn stdio_marker() -> Seq<char> {
    "-"@
}

/// The fixed label for the standard-input selection, also accepted as an
/// input token alias.
pub open spec fn stdin_label() -> Seq<char> {
    "<stdin>"@
}

/// The fixed label for the standard-output selection, also accepted as an
/// output token alias.
pub open spec fn stdout_label() -> Seq<char> {
    "<stdout>"@
}

/// Whether an input token selects the standard input stream: the empty
/// token, the stdio marker, or the input alias.
pub open spec fn names_stdin(token: Seq<char>) -> bool {
    token.len() == 0 || token == stdio_marker() || token == stdin_label()
}

/// Whether an output token selects the standard output stream: the empty
/// token, the stdio marker, or the output alias.
pub open spec fn names_stdout(token: Seq<char>) -> bool {
    token.len() == 0 || token == stdio_marker() || token == stdout_label()
}

/// The stdio marker is accepted by both directions: as an input token it
/// names standard input, and as an output token it names standard output.
pub proof fn lemma_marker_names_both_standard_streams()
    ensures
        names_stdin(stdio_marker()),
        names_stdout(stdio_marker()),
{
}

/// Character-for-character string equality.
pub fn str_eq(a: &str, b: &str) -> (r: bool)
    ensures
        r == (a@ == b@),
{
    let n = a.unicode_len();
    if n != b.unicode_len() {
        return false;
    }
    let mut i: usize = 0;
    while i < n
        invariant
            n == a@.len(),
            n == b@.len(),
            i <= n,
            forall|j: int| 0 <= j < i ==> a@[j] == b@[j],
        decreases n - i,
    {
        if a.get_char(i) != b.get_char(i) {
            return false;
        }
        i += 1;
    }
    proof {
        assert(a@ =~= b@);
    }
    true
}

} // verus!
