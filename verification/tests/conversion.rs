use std::cell::RefCell;

use png_squeeze::convert::convert_all;
use png_squeeze::encoder::{CompressionOutcome, EncoderCommand, FailureReason};

#[test]
fn every_path_is_converted_in_order() {
    let paths = vec![String::from("a.png"), String::from("d/b.PNG")];
    let outputs = RefCell::new(Vec::new());
    let invoke = |command: &EncoderCommand| {
        outputs.borrow_mut().push(command.args[7].clone());
        CompressionOutcome::Success
    };
    let report = convert_all(&paths, &invoke);
    assert_eq!(report.len(), 2);
    assert_eq!(*outputs.borrow(), vec!["a.webp", "d/b.webp"]);
    assert_eq!(report[0].png, "a.png");
    assert_eq!(report[1].png, "d/b.PNG");
    assert_eq!(report[0].command.program, "cwebp");
    assert_eq!(
        report[1].command.args,
        vec!["-mt", "-z", "9", "-metadata", "icc", "d/b.PNG", "-o", "d/b.webp"]
    );
    assert!(report.iter().all(|c| c.outcome.is_success()));
}

#[test]
fn failed_conversion_does_not_halt_the_pass() {
    let paths = vec![String::from("a.png"), String::from("bad.png"), String::from("c.png")];
    let calls = RefCell::new(0usize);
    let invoke = |command: &EncoderCommand| {
        *calls.borrow_mut() += 1;
        if command.args[5] == "bad.png" {
            CompressionOutcome::EncoderFailure(FailureReason::NonZeroExit(2))
        } else {
            CompressionOutcome::Success
        }
    };
    let report = convert_all(&paths, &invoke);
    assert_eq!(*calls.borrow(), 3);
    assert_eq!(report[0].outcome, CompressionOutcome::Success);
    assert_eq!(
        report[1].outcome,
        CompressionOutcome::EncoderFailure(FailureReason::NonZeroExit(2))
    );
    assert_eq!(report[2].outcome, CompressionOutcome::Success);
}

#[test]
fn nothing_to_convert() {
    let invoke = |_command: &EncoderCommand| CompressionOutcome::Success;
    let report = convert_all(&Vec::new(), &invoke);
    assert!(report.is_empty());
}
