//! Reusable input and output stream selectors for command-line programs.
//!
//! A selector classifies a textual token as either a file path or one of the
//! process's standard streams, answers queries about the selection, and
//! resolves to an open target naming exactly which byte stream to
//! materialize. Input selectors default to standard input, output selectors
//! to standard output.

pub mod combined;
pub mod input;
pub mod output;
pub mod stream;
pub mod token;

pub use combined::InputOutput;
pub use input::Input;
pub use input::InputTarget;
pub use input::input_open_error_message;
pub use output::Output;
pub use output::OutputTarget;
pub use output::output_open_error_message;
pub use stream::Stream;
