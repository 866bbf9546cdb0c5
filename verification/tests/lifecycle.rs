use uvm_install::action::Action;
use uvm_install::error::{ErrorKind, Failure, FailureKind};
use uvm_install::installer::{Installer, UnityEditor, UnityModule};
use uvm_install::lifecycle::{InstallHandler, InstallState, Outcome, Transition};
use uvm_install::path::FsPath;
use uvm_install::xz::{EditorXzInstaller, ModuleXzInstaller, Xz};

const ARCHIVE: &str = "/tmp/downloads/payload.tar.xz";
const INSTALL_ROOT: &str = "/Applications/Unity/Hub/Editor";
const EDITOR: &str = "/Applications/Unity/Hub/Editor/2019.1.0f1";
const MODULE: &str = "/Applications/Unity/Hub/Editor/2019.1.0f1/Editor/Data/PlaybackEngines/iOSSupport";

fn editor(destination: &str) -> EditorXzInstaller {
    Installer::new(
        UnityEditor,
        Xz,
        FsPath::parse(ARCHIVE),
        FsPath::parse(destination),
        None,
        FsPath::parse(INSTALL_ROOT),
    )
    .unwrap()
}

fn module(destination: &str, rename: Option<(&str, &str)>) -> ModuleXzInstaller {
    Installer::new(
        UnityModule,
        Xz,
        FsPath::parse(ARCHIVE),
        FsPath::parse(destination),
        rename.map(|(from, to)| (FsPath::parse(from), FsPath::parse(to))),
        FsPath::parse(INSTALL_ROOT),
    )
    .unwrap()
}

fn failed(kind: FailureKind, message: &str) -> Outcome {
    Outcome::Failed(Failure::new(kind, message))
}

fn start<H: InstallHandler>(handler: &H) -> Transition {
    handler.install(InstallState::Created, Outcome::Succeeded)
}

fn extract_parts(action: &Action) -> (String, Vec<String>) {
    match action {
        Action::Extract { program, arguments } => (program.clone(), arguments.clone()),
        other => panic!("expected an extraction, got {:?}", other),
    }
}

#[test]
fn installer_needs_absolute_paths() {
    let relative_source = Installer::new(
        UnityEditor,
        Xz,
        FsPath::parse("payload.tar.xz"),
        FsPath::parse(EDITOR),
        None,
        FsPath::parse(INSTALL_ROOT),
    );
    assert!(relative_source.is_none());
    let relative_destination = Installer::new(
        UnityModule,
        Xz,
        FsPath::parse(ARCHIVE),
        FsPath::parse("Editor/Data"),
        None,
        FsPath::parse(INSTALL_ROOT),
    );
    assert!(relative_destination.is_none());
}

#[test]
fn installer_keeps_what_it_was_given() {
    let installer = module(MODULE, Some(("/a/from", "/a/to")));
    assert_eq!(installer.source().to_string(), ARCHIVE);
    assert_eq!(installer.destination().to_string(), MODULE);
    assert_eq!(installer.install_root().to_string(), INSTALL_ROOT);
    let (from, to) = installer.rename().as_ref().unwrap();
    assert_eq!(from.to_string(), "/a/from");
    assert_eq!(to.to_string(), "/a/to");
    assert!(editor(EDITOR).rename().is_none());
}

#[test]
fn untar_builds_the_tar_command() {
    let installer = editor(EDITOR);
    let action = installer.untar(&FsPath::parse("/tmp/a.tar.xz"), &FsPath::parse("/opt/target"));
    let (program, arguments) = extract_parts(&action);
    assert_eq!(program, "tar");
    assert_eq!(arguments, vec!["-C", "/opt/target", "-amxf", "/tmp/a.tar.xz"]);
}

#[test]
fn module_install_goes_through_every_stage() {
    let installer = module(MODULE, None);

    let step = start(&installer);
    assert!(matches!(step.state, InstallState::PreInstalling));
    match &step.action {
        Action::CreateDirectory { path } => {
            assert_eq!(path.to_string(), "/Applications/Unity/Hub/Editor/2019.1.0f1")
        }
        other => panic!("unexpected action {:?}", other),
    }

    let step = installer.install(step.state, Outcome::Succeeded);
    assert!(matches!(step.state, InstallState::Installing));
    let (program, arguments) = extract_parts(&step.action);
    assert_eq!(program, "tar");
    assert_eq!(
        arguments,
        vec!["-C", "/Applications/Unity/Hub/Editor/2019.1.0f1", "-amxf", ARCHIVE]
    );

    let step = installer.install(step.state, Outcome::Succeeded);
    assert!(matches!(step.state, InstallState::PostInstalling));
    assert!(matches!(step.action, Action::Nothing));

    let step = installer.install(step.state, Outcome::Succeeded);
    assert!(matches!(step.state, InstallState::Done));
    assert!(matches!(step.action, Action::Nothing));
    assert!(step.state.is_final());
}

#[test]
fn module_with_rename_moves_the_tree_after_unpacking() {
    let installer = module(MODULE, Some(("/x/Editor/old", "/x/Editor/new")));
    let step = start(&installer);
    let step = installer.install(step.state, Outcome::Succeeded);
    let step = installer.install(step.state, Outcome::Succeeded);
    assert!(matches!(step.state, InstallState::PostInstalling));
    match &step.action {
        Action::MoveDirectory { from, to } => {
            assert_eq!(from.to_string(), "/x/Editor/old");
            assert_eq!(to.to_string(), "/x/Editor/new");
        }
        other => panic!("unexpected action {:?}", other),
    }
    let step = installer.install(step.state, Outcome::Succeeded);
    assert!(matches!(step.state, InstallState::Done));
}

#[test]
fn module_rename_failure_is_fatal() {
    let installer = module(MODULE, Some(("/x/Editor/old", "/x/Editor/new")));
    let step = start(&installer);
    let step = installer.install(step.state, Outcome::Succeeded);
    let step = installer.install(step.state, Outcome::Succeeded);
    let step = installer.install(step.state, failed(FailureKind::Other, "Directory not empty"));
    assert!(matches!(step.action, Action::Nothing));
    match step.state {
        InstallState::Failed(error) => {
            assert_eq!(error.kind, ErrorKind::RenameFailed);
            assert_eq!(error.detail, "Directory not empty");
            assert_eq!(
                error.context,
                vec!["post install step failed", "failed to rename installed module"]
            );
        }
        other => panic!("unexpected state {:?}", other),
    }
}

#[test]
fn module_failure_keeps_the_extraction_error() {
    let installer = module(MODULE, None);
    let step = start(&installer);
    let step = installer.install(step.state, Outcome::Succeeded);
    let step = installer.install(step.state, failed(FailureKind::ExitStatus, "tar: Unexpected EOF"));
    match &step.action {
        Action::RemoveDirectory { path } => assert_eq!(path.to_string(), MODULE),
        other => panic!("unexpected action {:?}", other),
    }
    assert!(step.state.is_final());
    // the removal fails too: the result is still the failed extraction
    let step = installer.install(step.state, failed(FailureKind::Other, "Permission denied"));
    assert!(matches!(step.action, Action::Nothing));
    match step.state {
        InstallState::Failed(error) => {
            assert_eq!(error.kind, ErrorKind::ExtractionFailed);
            assert_eq!(error.detail, "tar: Unexpected EOF");
            assert_eq!(error.context, vec!["installation failed"]);
            assert_eq!(error.message(), "failed to untar payload:/ntar: Unexpected EOF");
        }
        other => panic!("unexpected state {:?}", other),
    }
}

#[test]
fn module_outside_an_editor_fails_before_installing() {
    let installer = module("/Applications/Unity/Modules/iOSSupport", None);
    let step = start(&installer);
    assert!(matches!(step.state, InstallState::PreInstalling));
    assert!(matches!(step.action, Action::Nothing));
    let step = installer.install(step.state, Outcome::Succeeded);
    assert!(matches!(step.action, Action::Nothing));
    match step.state {
        InstallState::Failed(error) => {
            assert_eq!(error.kind, ErrorKind::PathError);
            assert_eq!(error.detail, "/Applications/Unity/Modules/iOSSupport");
            assert_eq!(error.context, vec!["pre install step failed"]);
        }
        other => panic!("unexpected state {:?}", other),
    }
}

#[test]
fn module_directory_creation_failure_stops_the_install() {
    let installer = module(MODULE, None);
    let step = start(&installer);
    let step = installer.install(step.state, failed(FailureKind::Other, "Read-only file system"));
    assert!(matches!(step.action, Action::Nothing));
    match step.state {
        InstallState::Failed(error) => {
            assert_eq!(error.kind, ErrorKind::Io);
            assert_eq!(error.detail, "Read-only file system");
            assert_eq!(error.context, vec!["pre install step failed"]);
        }
        other => panic!("unexpected state {:?}", other),
    }
}

#[test]
fn editor_install_goes_through_every_stage() {
    let installer = editor(EDITOR);
    let step = start(&installer);
    assert!(matches!(step.state, InstallState::PreInstalling));
    match &step.action {
        Action::CleanDirectory { path } => assert_eq!(path.to_string(), EDITOR),
        other => panic!("unexpected action {:?}", other),
    }
    let step = installer.install(step.state, Outcome::Succeeded);
    assert!(matches!(step.state, InstallState::Installing));
    let (program, arguments) = extract_parts(&step.action);
    assert_eq!(program, "tar");
    assert_eq!(arguments, vec!["-C", EDITOR, "-amxf", ARCHIVE]);
    let step = installer.install(step.state, Outcome::Succeeded);
    assert!(matches!(step.state, InstallState::PostInstalling));
    assert!(matches!(step.action, Action::Nothing));
    let step = installer.install(step.state, Outcome::Succeeded);
    assert!(matches!(step.state, InstallState::Done));
}

#[test]
fn editor_refuses_to_delete_unsafe_destination() {
    let installer = editor("/home/user/Documents");
    let step = start(&installer);
    assert!(matches!(step.state, InstallState::PreInstalling));
    assert!(matches!(step.action, Action::Nothing));
    let step = installer.install(step.state, Outcome::Succeeded);
    assert!(matches!(step.action, Action::Nothing));
    match step.state {
        InstallState::Failed(error) => {
            assert_eq!(error.kind, ErrorKind::PathError);
            assert_eq!(error.detail, "/home/user/Documents");
            assert_eq!(error.context, vec!["pre install step failed"]);
        }
        other => panic!("unexpected state {:?}", other),
    }
}

#[test]
fn editor_destination_must_hold_whole_components_of_the_root() {
    let installer = editor("/Applications/Unity/Hub/Editors/2019.1.0f1");
    let step = start(&installer);
    assert!(matches!(step.action, Action::Nothing));
    let step = installer.install(step.state, Outcome::Succeeded);
    assert!(matches!(step.state, InstallState::Failed(_)));
}

#[test]
fn editor_cleaning_failure_is_cleanup_failed() {
    let installer = editor(EDITOR);
    let step = start(&installer);
    let step = installer.install(step.state, failed(FailureKind::Other, "Device busy"));
    assert!(matches!(step.action, Action::Nothing));
    match step.state {
        InstallState::Failed(error) => {
            assert_eq!(error.kind, ErrorKind::CleanupFailed);
            assert_eq!(error.detail, "Device busy");
            assert_eq!(error.context, vec!["pre install step failed"]);
        }
        other => panic!("unexpected state {:?}", other),
    }
}

#[test]
fn editor_reports_missing_tool() {
    let installer = editor(EDITOR);
    let step = start(&installer);
    let step = installer.install(step.state, Outcome::Succeeded);
    let step = installer.install(step.state, failed(FailureKind::NotFound, "No such file or directory"));
    assert!(matches!(step.action, Action::Nothing));
    match step.state {
        InstallState::Failed(error) => {
            assert_eq!(error.kind, ErrorKind::ToolNotFound);
            assert_eq!(error.detail, "tar");
            assert_eq!(error.context, vec!["installation failed"]);
            assert_eq!(
                error.message(),
                "Error: 'tar' command not found.\nuvm requires 'tar' to install modules. Please ensure 'tar' is installed and accessible in your PATH."
            );
        }
        other => panic!("unexpected state {:?}", other),
    }
}

#[test]
fn module_reports_missing_tool_and_cleans_up() {
    let installer = module(MODULE, None);
    let step = start(&installer);
    let step = installer.install(step.state, Outcome::Succeeded);
    let step = installer.install(step.state, failed(FailureKind::NotFound, "No such file or directory"));
    assert!(matches!(step.action, Action::RemoveDirectory { .. }));
    match step.state {
        InstallState::Failed(error) => {
            assert_eq!(error.kind, ErrorKind::ToolNotFound);
            assert_eq!(error.detail, "tar");
        }
        other => panic!("unexpected state {:?}", other),
    }
}

#[test]
fn final_states_are_never_left() {
    let installer = editor(EDITOR);
    let step = installer.install(InstallState::Done, failed(FailureKind::Other, "late"));
    assert!(matches!(step.state, InstallState::Done));
    assert!(matches!(step.action, Action::Nothing));
    let step = installer.install(step.state, Outcome::Succeeded);
    assert!(matches!(step.state, InstallState::Done));
}

#[test]
fn only_final_states_are_final() {
    assert!(!InstallState::Created.is_final());
    assert!(!InstallState::PreInstalling.is_final());
    assert!(!InstallState::Installing.is_final());
    assert!(!InstallState::PostInstalling.is_final());
    assert!(InstallState::Done.is_final());
}

#[test]
fn start_ignores_the_outcome_it_is_given() {
    let installer = editor(EDITOR);
    let step = installer.install(InstallState::Created, failed(FailureKind::Other, "stale"));
    assert!(matches!(step.state, InstallState::PreInstalling));
    assert!(matches!(step.action, Action::CleanDirectory { .. }));
}

#[test]
fn hooks_can_be_asked_one_by_one() {
    let installer = module(MODULE, None);
    assert!(matches!(installer.before_install(), Ok(Action::CreateDirectory { .. })));
    assert!(matches!(installer.install_handler(), Ok(Action::Extract { .. })));
    assert!(matches!(installer.after_install(), Ok(Action::Nothing)));
    assert!(matches!(installer.error_handler(), Action::RemoveDirectory { .. }));
    let installer = editor(EDITOR);
    assert!(matches!(installer.before_install(), Ok(Action::CleanDirectory { .. })));
    assert!(matches!(installer.install_handler(), Ok(Action::Extract { .. })));
    assert!(matches!(installer.after_install(), Ok(Action::Nothing)));
    assert!(matches!(installer.error_handler(), Action::Nothing));
}
