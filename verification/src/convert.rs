//! The conversion pass: one WebP encoder invocation per image, in order.

use vstd::prelude::*;
use crate::encoder::{
    webp_arguments, webp_command, webp_program, CompressionOutcome, EncoderCommand,
};
use crate::path::has_png_extension;

verus! {

/// One image of the conversion pass: the PNG, the command that was run to
/// write its sibling, and how the invocation ended.
#[derive(Debug)]
pub struct Conversion {
    pub png: String,
    pub command: EncoderCommand,
    pub outcome: CompressionOutcome,
}

/// Whether `command` is the WebP encoder's command line for the PNG at `png`.
pub open spec fn converts(command: EncoderCommand, png: Seq<char>) -> bool {
    &&& command.program@ == webp_program()
    &&& command.args.deep_view() == webp_arguments(png)
}

/// Whether the invoker may be handed every command that converts `png`.
pub open spec fn accepts_conversion<F: Fn(&EncoderCommand) -> CompressionOutcome>(
    invoke: &F,
    png: Seq<char>,
) -> bool {
    forall|command: EncoderCommand|
        converts(command, png) ==> #[trigger] call_requires(invoke, (&command,))
}

/// Has the WebP encoder invoked on each path in turn, with the sibling path as
/// the output. `invoke` runs a command and reports how it ended. A failed
/// invocation is recorded and the pass goes on with the next path.
pub fn convert_all<F: Fn(&EncoderCommand) -> CompressionOutcome>(
    paths: &Vec<String>,
    invoke: &F,
) -> (report: Vec<Conversion>)
    requires
        forall|i: int| 0 <= i < paths@.len() ==> has_png_extension((#[trigger] paths@[i])@),
        forall|i: int| 0 <= i < paths@.len() ==> accepts_conversion(invoke, (#[trigger] paths@[i])@),
    ensures
        report@.len() == paths@.len(),
        forall|i: int| 0 <= i < report@.len() ==> (#[trigger] report@[i]).png@ == paths@[i]@,
        forall|i: int|
            0 <= i < report@.len() ==> converts((#[trigger] report@[i]).command, paths@[i]@),
        forall|i: int|
            0 <= i < report@.len() ==> call_ensures(
                invoke,
                (&report@[i].command,),
                (#[trigger] report@[i]).outcome,
            ),
{
    let mut report: Vec<Conversion> = Vec::new();
    let mut i: usize = 0;
    while i < paths.len()
        invariant
            i <= paths@.len(),
            report@.len() == i,
            forall|k: int| 0 <= k < paths@.len() ==> has_png_extension((#[trigger] paths@[k])@),
            forall|k: int|
                0 <= k < paths@.len() ==> accepts_conversion(invoke, (#[trigger] paths@[k])@),
            forall|k: int| 0 <= k < i ==> (#[trigger] report@[k]).png@ == paths@[k]@,
            forall|k: int| 0 <= k < i ==> converts((#[trigger] report@[k]).command, paths@[k]@),
            forall|k: int|
                0 <= k < i ==> call_ensures(
                    invoke,
                    (&report@[k].command,),
                    (#[trigger] report@[k]).outcome,
                ),
        decreases paths@.len() - i,
    {
        let png = paths[i].clone();
        let command = webp_command(png.as_str());
        let outcome = invoke(&command);
        report.push(Conversion { png, command, outcome });
        i += 1;
    }
    report
}

} // verus!
