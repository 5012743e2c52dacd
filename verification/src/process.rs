//! What an executor asks its host to run, and what the host reports back.

use vstd::prelude::*;
use vstd::utf8::*;

verus! {

/// A command line: the program to start and its arguments, in order.
#[derive(Debug, PartialEq, Eq)]
pub struct Command {
    /// The program's name or path.
    pub program: String,
    /// The arguments after the program's name.
    pub args: Vec<String>,
}

/// The mathematical content of a [`Command`].
pub ghost struct CommandView {
    pub program: Seq<char>,
    pub args: Seq<Seq<char>>,
}

impl View for Command {
    type V = CommandView;

    open spec fn view(&self) -> CommandView {
        CommandView { program: self.program@, args: self.args.deep_view() }
    }
}

/// What a finished process left behind: whether it reported success, and the
/// bytes it wrote to its two output streams.
#[derive(Debug, PartialEq, Eq)]
pub struct ProcessOutput {
    /// Whether the process exited with a status that means success.
    pub success: bool,
    /// Everything the process wrote to standard output.
    pub stdout: Vec<u8>,
    /// Everything the process wrote to standard error.
    pub stderr: Vec<u8>,
}

/// The mathematical content of a [`ProcessOutput`].
pub ghost struct OutputView {
    pub success: bool,
    pub stdout: Seq<u8>,
    pub stderr: Seq<u8>,
}

impl View for ProcessOutput {
    type V = OutputView;

    open spec fn view(&self) -> OutputView {
        OutputView { success: self.success, stdout: self.stdout@, stderr: self.stderr@ }
    }
}

/// The text that `bytes` encode, where they are well-formed UTF-8.
///
/// Trusted: this is `core::str::from_utf8`, of which the contract claims that
/// it succeeds exactly on well-formed UTF-8 and that the text it returns is
/// made of the very bytes it was given.
#[verifier::external_body]
pub(crate) fn as_text(bytes: &[u8]) -> (r: Option<&str>)
    ensures
        r is Some <==> valid_utf8(bytes@),
        r matches Some(text) ==> encode_utf8(text@) == bytes@,
{
    core::str::from_utf8(bytes).ok()
}

/// The text that a lossy reading makes of `bytes`: the text of
/// `String::from_utf8_lossy`, which puts U+FFFD in the place of every part of
/// `bytes` that is not well-formed UTF-8.
pub uninterp spec fn lossy_text(bytes: Seq<u8>) -> Seq<char>;

/// A lossy reading of `bytes` as text.
///
/// Trusted: this is `String::from_utf8_lossy`, of which the contract claims no
/// more than that its text depends on the bytes alone.
#[verifier::external_body]
pub(crate) fn as_lossy_text(bytes: &[u8]) -> (r: String)
    ensures
        r@ == lossy_text(bytes@),
{
    String::from_utf8_lossy(bytes).into_owned()
}

/// The text that is read out of `bytes`: what they encode, where they are
/// well-formed UTF-8, and else what a lossy reading makes of them.
pub open spec fn text_of(bytes: Seq<u8>) -> Seq<char> {
    if valid_utf8(bytes) {
        decode_utf8(bytes)
    } else {
        lossy_text(bytes)
    }
}

/// Reads `bytes` as text. No bytes are refused: those that are not
/// well-formed UTF-8 are read lossily.
pub fn read_text(bytes: &Vec<u8>) -> (r: String)
    ensures
        r@ == text_of(bytes@),
{
    match as_text(bytes.as_slice()) {
        Some(text) => {
            proof {
                encode_utf8_decode_utf8(text@);
            }
            text.to_owned()
        },
        None => as_lossy_text(bytes.as_slice()),
    }
}

} // verus!
