//! The agent's end of an interactive shell: what its output readers do
//! with what they read.

use vstd::prelude::*;
use vstd::slice::{slice_subrange, slice_to_vec};

verus! {

/// How many bytes a reader asks of the shell's output at a time.
pub const OUTPUT_CHUNK: usize = 1024;

/// The program that a shell host runs.
pub const SHELL_PROGRAM: &'static str = "sh";

/// The argument that makes the shell interactive.
pub const SHELL_ARGUMENT: &'static str = "-i";

/// Bytes that a shell wrote to its standard output or standard error.
#[derive(Debug, PartialEq, Eq)]
pub struct ShellOutput {
    pub id: String,
    pub bytes: Vec<u8>,
}

/// Mathematical model of [`ShellOutput`].
pub struct ShellOutputModel {
    pub id: Seq<char>,
    pub bytes: Seq<u8>,
}

impl View for ShellOutput {
    type V = ShellOutputModel;

    open spec fn view(&self) -> ShellOutputModel {
        ShellOutputModel { id: self.id@, bytes: self.bytes@ }
    }
}

impl DeepView for ShellOutput {
    type V = ShellOutputModel;

    open spec fn deep_view(&self) -> ShellOutputModel {
        self@
    }
}

/// The first `n` bytes of a buffer, or all of it where it has fewer.
pub open spec fn filled(buffer: Seq<u8>, n: usize) -> Seq<u8> {
    if n <= buffer.len() {
        buffer.take(n as int)
    } else {
        buffer
    }
}

/// What a reader of the output of shell `id` does after a read into
/// `buffer`. `read` is the number of bytes that the read gave, or `None`
/// where it failed. Bytes are forwarded as a chunk of output; the end of
/// the output and a failed read end the reader, which is what `None` says.
pub fn forward_child_output(id: &String, buffer: &[u8], read: Option<usize>) -> (output: Option<
    ShellOutput,
>)
    ensures
        match read {
            Some(n) => if n == 0 {
                output is None
            } else {
                output matches Some(chunk) && chunk.id@ == id@ && chunk.bytes@ == filled(
                    buffer@,
                    n,
                )
            },
            None => output is None,
        },
{
    match read {
        None => None,
        Some(n) => {
            if n == 0 {
                None
            } else {
                let end = if n <= buffer.len() {
                    n
                } else {
                    buffer.len()
                };
                let bytes = slice_to_vec(slice_subrange(buffer, 0, end));
                assert(bytes@ =~= filled(buffer@, n));
                Some(ShellOutput { id: id.clone(), bytes })
            }
        },
    }
}

} // verus!
