use png_squeeze::encoder::{
    png_command, webp_command, CompressionOutcome, FailureReason, ProcessExit,
};

#[test]
fn png_command_line() {
    let command = png_command("img/a.png");
    assert_eq!(command.program, "zopflipng");
    assert_eq!(
        command.args,
        vec!["-m", "-y", "--keepchunks=cHRM,gAMA,hIST,iCCP,pHYs,sRGB", "img/a.png", "img/a.png"]
    );
}

#[test]
fn png_command_overwrites_in_place() {
    let command = png_command("b.PNG");
    assert_eq!(command.args.len(), 5);
    assert_eq!(command.args[3], command.args[4]);
    assert_eq!(command.args[4], "b.PNG");
}

#[test]
fn webp_command_line() {
    let command = webp_command("img/a.png");
    assert_eq!(command.program, "cwebp");
    assert_eq!(
        command.args,
        vec!["-mt", "-z", "9", "-metadata", "icc", "img/a.png", "-o", "img/a.webp"]
    );
}

#[test]
fn webp_command_writes_the_sibling() {
    let command = webp_command("Shot.PNG");
    assert_eq!(command.args.len(), 8);
    assert_eq!(command.args[5], "Shot.PNG");
    assert_eq!(command.args[6], "-o");
    assert_eq!(command.args[7], "Shot.webp");
}

#[test]
fn exit_code_zero_is_success() {
    let outcome = CompressionOutcome::from_exit(ProcessExit::Code(0));
    assert_eq!(outcome, CompressionOutcome::Success);
    assert!(outcome.is_success());
}

#[test]
fn non_zero_exit_is_failure() {
    for code in [1, 2, 127, 255, -1, i32::MIN, i32::MAX] {
        let outcome = CompressionOutcome::from_exit(ProcessExit::Code(code));
        assert_eq!(outcome, CompressionOutcome::EncoderFailure(FailureReason::NonZeroExit(code)));
        assert!(!outcome.is_success());
    }
}

#[test]
fn spawn_failure_is_failure() {
    let outcome = CompressionOutcome::from_exit(ProcessExit::NotStarted);
    assert_eq!(outcome, CompressionOutcome::EncoderFailure(FailureReason::SpawnFailed));
    assert!(!outcome.is_success());
}

#[test]
fn exit_without_code_is_failure() {
    let outcome = CompressionOutcome::from_exit(ProcessExit::NoCode);
    assert_eq!(outcome, CompressionOutcome::EncoderFailure(FailureReason::NoExitCode));
    assert!(!outcome.is_success());
}
