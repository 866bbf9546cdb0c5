use uvm_install::action::Action;
use uvm_install::error::{handle_notfound, ErrorKind, Failure, FailureKind, InstallError};
use uvm_install::path::FsPath;

#[test]
fn handle_notfound_names_the_missing_tool() {
    let error = handle_notfound("tar", Failure::new(FailureKind::NotFound, "No such file or directory"));
    assert_eq!(error.kind, ErrorKind::ToolNotFound);
    assert_eq!(error.detail, "tar");
    assert!(error.context.is_empty());
}

#[test]
fn handle_notfound_passes_other_failures_on() {
    let error = handle_notfound("tar", Failure::new(FailureKind::Other, "Permission denied"));
    assert_eq!(error.kind, ErrorKind::Io);
    assert_eq!(error.detail, "Permission denied");
    let error = handle_notfound("tar", Failure::new(FailureKind::ExitStatus, "boom"));
    assert_eq!(error.kind, ErrorKind::Io);
    assert_eq!(error.detail, "boom");
}

#[test]
fn tool_not_found_message_names_the_tool() {
    let error = handle_notfound("7z", Failure::new(FailureKind::NotFound, ""));
    assert_eq!(
        error.message(),
        "Error: '7z' command not found.\nuvm requires '7z' to install modules. Please ensure '7z' is installed and accessible in your PATH."
    );
}

#[test]
fn extraction_failed_message_carries_standard_error() {
    let error = InstallError::new(ErrorKind::ExtractionFailed, String::from("tar: bad header"));
    assert_eq!(error.message(), "failed to untar payload:/ntar: bad header");
}

#[test]
fn other_messages_are_the_detail() {
    for kind in [
        ErrorKind::PathError,
        ErrorKind::LockError,
        ErrorKind::RenameFailed,
        ErrorKind::CleanupFailed,
        ErrorKind::Io,
    ] {
        let error = InstallError::new(kind, String::from("what happened"));
        assert_eq!(error.kind, kind);
        assert_eq!(error.message(), "what happened");
    }
}

#[test]
fn chain_err_puts_the_newest_label_first() {
    let error = InstallError::new(ErrorKind::RenameFailed, String::from("busy"))
        .chain_err("failed to rename installed module")
        .chain_err("post install step failed");
    assert_eq!(error.context, vec!["post install step failed", "failed to rename installed module"]);
    assert_eq!(error.kind, ErrorKind::RenameFailed);
    assert_eq!(error.detail, "busy");
}

#[test]
fn duplicate_error_keeps_everything() {
    let error = InstallError::new(ErrorKind::Io, String::from("x")).chain_err("a").chain_err("b");
    let copy = error.duplicate();
    assert_eq!(copy.kind, error.kind);
    assert_eq!(copy.detail, error.detail);
    assert_eq!(copy.context, error.context);
}

fn extract() -> Action {
    Action::Extract { program: String::from("tar"), arguments: vec![String::from("-C")] }
}

#[test]
fn failed_extraction_with_exit_status_is_extraction_failed() {
    let error = extract().failure(Failure::new(FailureKind::ExitStatus, "tar: short read"));
    assert_eq!(error.kind, ErrorKind::ExtractionFailed);
    assert_eq!(error.detail, "tar: short read");
    assert!(error.context.is_empty());
}

#[test]
fn failed_extraction_without_tool_is_tool_not_found() {
    let error = extract().failure(Failure::new(FailureKind::NotFound, "not found"));
    assert_eq!(error.kind, ErrorKind::ToolNotFound);
    assert_eq!(error.detail, "tar");
}

#[test]
fn failed_extraction_for_another_reason_is_io() {
    let error = extract().failure(Failure::new(FailureKind::Other, "Permission denied"));
    assert_eq!(error.kind, ErrorKind::Io);
    assert_eq!(error.detail, "Permission denied");
}

#[test]
fn failed_removal_is_cleanup_failed() {
    let path = FsPath::parse("/opt/unity");
    for action in [
        Action::CleanDirectory { path: path.duplicate() },
        Action::RemoveDirectory { path: path.duplicate() },
    ] {
        let error = action.failure(Failure::new(FailureKind::Other, "busy"));
        assert_eq!(error.kind, ErrorKind::CleanupFailed);
        assert_eq!(error.detail, "busy");
        assert!(error.context.is_empty());
    }
}

#[test]
fn failed_move_is_rename_failed_under_its_label() {
    let action = Action::MoveDirectory { from: FsPath::parse("/a"), to: FsPath::parse("/b") };
    let error = action.failure(Failure::new(FailureKind::NotFound, "gone"));
    assert_eq!(error.kind, ErrorKind::RenameFailed);
    assert_eq!(error.detail, "gone");
    assert_eq!(error.context, vec!["failed to rename installed module"]);
}

#[test]
fn failed_create_and_failed_nothing_are_io() {
    let error = Action::CreateDirectory { path: FsPath::parse("/a") }
        .failure(Failure::new(FailureKind::Other, "read-only"));
    assert_eq!(error.kind, ErrorKind::Io);
    assert_eq!(error.detail, "read-only");
    let error = Action::Nothing.failure(Failure::new(FailureKind::NotFound, "odd"));
    assert_eq!(error.kind, ErrorKind::Io);
    assert_eq!(error.detail, "odd");
}
