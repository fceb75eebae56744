//! The combined convenience pair: one input and one output selector.

use crate::input::Input;
use crate::output::Output;
use vstd::prelude::*;

verus! {

/// One input and one output selection bundled together, for programs that
/// want both with a single declaration. The two selections are independent:
/// each resolves to its own stream and the pair shares no state.
///
/// Note that nothing stops the two selections from naming the same file
/// path; copying a file onto itself through such a pair is a known hazard,
/// and the outcome for the data is not defined by this library.
#[derive(Debug)]
pub struct InputOutput {
    /// Where to read from; defaults to standard input.
    pub input: Input,
    /// Where to write to; defaults to standard output.
    pub output: Output,
}

impl Clone for InputOutput {
    /// Cloning keeps both selections.
    fn clone(&self) -> (r: Self)
        ensures
            r.input.stream() == self.input.stream(),
            r.output.stream() == self.output.stream(),
    {
        InputOutput { input: self.input.clone(), output: self.output.clone() }
    }
}

impl Default for InputOutput {
    /// The pair an absent command line defaults to: standard input and
    /// standard output.
    fn default() -> (pair: InputOutput)
        ensures
            pair.input.stream() is Stdin,
            pair.output.stream() is Stdout,
    {
        InputOutput { input: Input::default(), output: Output::default() }
    }
}

} // verus!
