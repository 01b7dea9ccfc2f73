//! The two external encoders: the command line each one is started with, and
//! how the way its process ended is read as an outcome.

use vstd::prelude::*;
use vstd::string::*;
use crate::path::{has_png_extension, webp_sibling, webp_sibling_of};

verus! {

/// A program to start and the arguments to hand it.
#[derive(Debug)]
pub struct EncoderCommand {
    pub program: String,
    pub args: Vec<String>,
}

/// How an encoder process ended, as the host observed it.
#[derive(Clone, Copy, Debug, PartialEq, Eq, Structural)]
pub enum ProcessExit {
    /// The process could not be started.
    NotStarted,
    /// The process ran and exited with this status code.
    Code(i32),
    /// The process ended without a status code.
    NoCode,
}

/// Why an encoder invocation counts as failed.
#[derive(Clone, Copy, Debug, PartialEq, Eq, Structural)]
pub enum FailureReason {
    SpawnFailed,
    NonZeroExit(i32),
    NoExitCode,
}

/// The result of one encoder invocation on one path.
#[derive(Clone, Copy, Debug, PartialEq, Eq, Structural)]
pub enum CompressionOutcome {
    Success,
    EncoderFailure(FailureReason),
}

/// Only an exit with status code 0 is a success; every other ending is a
/// failure that names how the process ended.
pub open spec fn outcome_of_exit(exit: ProcessExit) -> CompressionOutcome {
    match exit {
        ProcessExit::Code(code) => if code == 0 {
            CompressionOutcome::Success
        } else {
            CompressionOutcome::EncoderFailure(FailureReason::NonZeroExit(code))
        },
        ProcessExit::NotStarted => CompressionOutcome::EncoderFailure(FailureReason::SpawnFailed),
        ProcessExit::NoCode => CompressionOutcome::EncoderFailure(FailureReason::NoExitCode),
    }
}

impl CompressionOutcome {
    pub open spec fn succeeded(self) -> bool {
        self is Success
    }

    pub fn is_success(&self) -> (ok: bool)
        ensures
            ok == self.succeeded(),
    {
        match self {
            CompressionOutcome::Success => true,
            CompressionOutcome::EncoderFailure(_) => false,
        }
    }

    /// Reads the ending of an encoder process as an outcome.
    pub fn from_exit(exit: ProcessExit) -> (outcome: CompressionOutcome)
        ensures
            outcome == outcome_of_exit(exit),
    {
        match exit {
            ProcessExit::Code(code) => {
                if code == 0 {
                    CompressionOutcome::Success
                } else {
                    CompressionOutcome::EncoderFailure(FailureReason::NonZeroExit(code))
                }
            },
            ProcessExit::NotStarted => CompressionOutcome::EncoderFailure(
                FailureReason::SpawnFailed,
            ),
            ProcessExit::NoCode => CompressionOutcome::EncoderFailure(FailureReason::NoExitCode),
        }
    }
}

/// An invocation succeeds exactly when its process exited with status code 0.
pub proof fn lemma_success_is_exit_code_zero(exit: ProcessExit)
    ensures
        outcome_of_exit(exit).succeeded() <==> exit == ProcessExit::Code(0),
{
}

/// The program that recompresses a PNG in place.
pub open spec fn png_program() -> Seq<char> {
    "zopflipng"@
}

/// Arguments of the PNG recompressor: maximal effort, overwrite without
/// asking, the metadata chunks to keep, then the same path as input and output.
pub open spec fn png_arguments(path: Seq<char>) -> Seq<Seq<char>> {
    seq!["-m"@, "-y"@, "--keepchunks=cHRM,gAMA,hIST,iCCP,pHYs,sRGB"@, path, path]
}

/// The program that converts a PNG to WebP.
pub open spec fn webp_program() -> Seq<char> {
    "cwebp"@
}

/// Arguments of the WebP encoder: multithreaded, compression level 9, the ICC
/// profile kept, the PNG as input and its sibling as output.
pub open spec fn webp_arguments(path: Seq<char>) -> Seq<Seq<char>>
    recommends
        has_png_extension(path),
{
    seq!["-mt"@, "-z"@, "9"@, "-metadata"@, "icc"@, path, "-o"@, webp_sibling_of(path)]
}

/// The command that recompresses the PNG at `path` in place.
pub fn png_command(path: &str) -> (command: EncoderCommand)
    ensures
        command.program@ == png_program(),
        command.args.deep_view() == png_arguments(path@),
{
    let mut args: Vec<String> = Vec::new();
    args.push(String::from_str("-m"));
    args.push(String::from_str("-y"));
    args.push(String::from_str("--keepchunks=cHRM,gAMA,hIST,iCCP,pHYs,sRGB"));
    args.push(String::from_str(path));
    args.push(String::from_str(path));
    EncoderCommand { program: String::from_str("zopflipng"), args }
}

/// The command that writes the WebP sibling of the PNG at `path`.
pub fn webp_command(path: &str) -> (command: EncoderCommand)
    requires
        has_png_extension(path@),
    ensures
        command.program@ == webp_program(),
        command.args.deep_view() == webp_arguments(path@),
{
    let mut args: Vec<String> = Vec::new();
    args.push(String::from_str("-mt"));
    args.push(String::from_str("-z"));
    args.push(String::from_str("9"));
    args.push(String::from_str("-metadata"));
    args.push(String::from_str("icc"));
    args.push(String::from_str(path));
    args.push(String::from_str("-o"));
    args.push(webp_sibling(path));
    EncoderCommand { program: String::from_str("cwebp"), args }
}

} // verus!
