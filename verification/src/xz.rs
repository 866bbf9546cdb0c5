//! Installers of `tar` archives packed with `xz`.

use vstd::prelude::*;
use vstd::string::*;
use crate::action::{Action, ActionModel};
use crate::error::{ErrorKind, FailureKind, FailureModel, InstallError, InstallErrorModel};
use crate::installer::{Installer, InstallerModel, UnityEditor, UnityModule};
use crate::lifecycle::{
    install_label, lifecycle_step, pre_install_label, Hooks, InstallHandler,
    OutcomeModel, Plan, PlanModel, StateModel, TransitionModel,
};
use crate::path::{
    contains_subpath, editor_root, path_contains_subpath, path_to_editor_root, FsPath, PathModel,
};
use crate::text::views_of;

verus! {

/// Marks an installer whose archive is a `tar` file packed with `xz`.
#[derive(Clone, Copy, Debug)]
pub struct Xz;

/// Installs an editor from an `xz` archive.
pub type EditorXzInstaller = Installer<UnityEditor, Xz>;

/// Installs a module from an `xz` archive.
pub type ModuleXzInstaller = Installer<UnityModule, Xz>;

/// The request to unpack `source` into the directory `destination`, which
/// has to be there already: `tar -C destination -amxf source`.
pub open spec fn untar_plan(source: PathModel, destination: PathModel) -> ActionModel {
    ActionModel::Extract {
        program: "tar"@,
        arguments: seq!["-C"@, destination.text(), "-amxf"@, source.text()],
    }
}

impl<V> Installer<V, Xz> {
    /// The request to unpack the archive at `source` into `destination`.
    pub fn untar(&self, source: &FsPath, destination: &FsPath) -> (action: Action)
        ensures
            action@ == untar_plan(source@, destination@),
    {
        let mut arguments: Vec<String> = Vec::new();
        arguments.push(String::from_str("-C"));
        arguments.push(destination.to_string());
        arguments.push(String::from_str("-amxf"));
        arguments.push(source.to_string());
        assert(views_of(arguments@) =~= seq![
            "-C"@,
            destination@.text(),
            "-amxf"@,
            source@.text(),
        ]);
        Action::Extract { program: String::from_str("tar"), arguments }
    }
}

/// An editor's destination is emptied before the archive is unpacked, but
/// only where it holds the install root as a run of its own components;
/// any other destination is refused as a `PathError` and nothing is deleted.
pub open spec fn editor_before_install(installer: InstallerModel) -> PlanModel {
    if contains_subpath(installer.destination.components, installer.install_root.components) {
        Ok(ActionModel::CleanDirectory { path: installer.destination })
    } else {
        Err(InstallErrorModel::root(ErrorKind::PathError, installer.destination.text()))
    }
}

/// An editor's archive is unpacked into the destination.
pub open spec fn editor_install(installer: InstallerModel) -> PlanModel {
    Ok(untar_plan(installer.source, installer.destination))
}

/// What the hooks of an editor installer decide. An editor needs nothing
/// after its archive is unpacked, and nothing is tidied up after one that
/// failed to install.
pub open spec fn editor_hooks(installer: InstallerModel) -> Hooks {
    Hooks {
        before_install: editor_before_install(installer),
        install: editor_install(installer),
        after_install: Ok(ActionModel::Nothing),
        recovery: ActionModel::Nothing,
    }
}

impl InstallHandler for Installer<UnityEditor, Xz> {
    open spec fn before_install_plan(&self) -> PlanModel {
        editor_hooks(self@).before_install
    }

    open spec fn install_plan(&self) -> PlanModel {
        editor_hooks(self@).install
    }

    open spec fn after_install_plan(&self) -> PlanModel {
        editor_hooks(self@).after_install
    }

    open spec fn recovery_plan(&self) -> ActionModel {
        editor_hooks(self@).recovery
    }

    fn before_install(&self) -> (plan: Plan) {
        if path_contains_subpath(self.destination(), self.install_root()) {
            Ok(Action::CleanDirectory { path: self.destination().duplicate() })
        } else {
            Err(InstallError::new(ErrorKind::PathError, self.destination().to_string()))
        }
    }

    fn install_handler(&self) -> (plan: Plan) {
        Ok(self.untar(self.source(), self.destination()))
    }

    fn after_install(&self) -> (plan: Plan) {
        Ok(Action::Nothing)
    }

    fn error_handler(&self) -> (action: Action) {
        Action::Nothing
    }
}

/// Before a module is installed, the root of the editor that its destination
/// lies in is created if it is missing. A destination outside any editor is
/// refused as a `PathError`.
pub open spec fn module_before_install(installer: InstallerModel) -> PlanModel {
    match editor_root(installer.destination) {
        Some(root) => Ok(ActionModel::CreateDirectory { path: root }),
        None => Err(InstallErrorModel::root(ErrorKind::PathError, installer.destination.text())),
    }
}

/// A module's archive is unpacked into the root of its editor.
pub open spec fn module_install(installer: InstallerModel) -> PlanModel {
    match editor_root(installer.destination) {
        Some(root) => Ok(untar_plan(installer.source, root)),
        None => Err(InstallErrorModel::root(ErrorKind::PathError, installer.destination.text())),
    }
}

/// Where a module is to be renamed, the unpacked tree is moved.
pub open spec fn module_after_install(installer: InstallerModel) -> PlanModel {
    match installer.rename {
        Some((from, to)) => Ok(ActionModel::MoveDirectory { from, to }),
        None => Ok(ActionModel::Nothing),
    }
}

/// After a module that failed to install, its destination is removed.
pub open spec fn module_recovery(installer: InstallerModel) -> ActionModel {
    ActionModel::RemoveDirectory { path: installer.destination }
}

/// What the hooks of a module installer decide.
pub open spec fn module_hooks(installer: InstallerModel) -> Hooks {
    Hooks {
        before_install: module_before_install(installer),
        install: module_install(installer),
        after_install: module_after_install(installer),
        recovery: module_recovery(installer),
    }
}

impl InstallHandler for Installer<UnityModule, Xz> {
    open spec fn before_install_plan(&self) -> PlanModel {
        module_hooks(self@).before_install
    }

    open spec fn install_plan(&self) -> PlanModel {
        module_hooks(self@).install
    }

    open spec fn after_install_plan(&self) -> PlanModel {
        module_hooks(self@).after_install
    }

    open spec fn recovery_plan(&self) -> ActionModel {
        module_hooks(self@).recovery
    }

    fn before_install(&self) -> (plan: Plan) {
        match path_to_editor_root(self.destination()) {
            Ok(root) => Ok(Action::CreateDirectory { path: root }),
            Err(error) => Err(error),
        }
    }

    fn install_handler(&self) -> (plan: Plan) {
        match path_to_editor_root(self.destination()) {
            Ok(root) => Ok(self.untar(self.source(), &root)),
            Err(error) => Err(error),
        }
    }

    fn after_install(&self) -> (plan: Plan) {
        match self.rename() {
            Some((from, to)) => Ok(
                Action::MoveDirectory { from: from.duplicate(), to: to.duplicate() },
            ),
            None => Ok(Action::Nothing),
        }
    }

    fn error_handler(&self) -> (action: Action) {
        Action::RemoveDirectory { path: self.destination().duplicate() }
    }
}

/// A module whose archive fails to unpack ends with the error of the
/// unpacking. The machine asks for the destination to be removed, and
/// whether that works or not, the result stays the failure to install: a
/// failed removal never takes its place.
pub proof fn lemma_module_failure_keeps_cause(
    installer: InstallerModel,
    failure: FailureModel,
    removal: OutcomeModel,
)
    requires
        editor_root(installer.destination) is Some,
    ensures
        ({
            let hooks = module_hooks(installer);
            let root = editor_root(installer.destination)->Some_0;
            let cause = untar_plan(installer.source, root).failure(failure).wrapped(
                install_label(),
            );
            let failed = lifecycle_step(
                hooks,
                StateModel::Installing,
                OutcomeModel::Failed(failure),
            );
            &&& failed.state == StateModel::Failed(cause)
            &&& failed.action == (ActionModel::RemoveDirectory { path: installer.destination })
            &&& lifecycle_step(hooks, failed.state, removal) == (TransitionModel {
                state: StateModel::Failed(cause),
                action: ActionModel::Nothing,
            })
        }),
{
}

/// A module whose destination lies below an `Editor` directory and that is
/// not renamed goes through every stage to `Done` when nothing fails: the
/// editor root is created, the archive is unpacked into that root, and
/// nothing is left to do afterwards.
pub proof fn lemma_module_install_succeeds(installer: InstallerModel, start: OutcomeModel)
    requires
        editor_root(installer.destination) is Some,
        installer.rename is None,
    ensures
        ({
            let hooks = module_hooks(installer);
            let root = editor_root(installer.destination)->Some_0;
            let done = OutcomeModel::Succeeded;
            &&& lifecycle_step(hooks, StateModel::Created, start) == (TransitionModel {
                state: StateModel::PreInstalling,
                action: ActionModel::CreateDirectory { path: root },
            })
            &&& lifecycle_step(hooks, StateModel::PreInstalling, done) == (TransitionModel {
                state: StateModel::Installing,
                action: untar_plan(installer.source, root),
            })
            &&& lifecycle_step(hooks, StateModel::Installing, done) == (TransitionModel {
                state: StateModel::PostInstalling,
                action: ActionModel::Nothing,
            })
            &&& lifecycle_step(hooks, StateModel::PostInstalling, done) == (TransitionModel {
                state: StateModel::Done,
                action: ActionModel::Nothing,
            })
        }),
{
}

/// An editor whose destination does not hold the install root is never
/// emptied: the pre-install stage asks for nothing, and then fails with a
/// `PathError` that carries the destination, whatever is reported to it.
pub proof fn lemma_editor_refuses_unsafe_destination(
    installer: InstallerModel,
    start: OutcomeModel,
    outcome: OutcomeModel,
)
    requires
        !contains_subpath(installer.destination.components, installer.install_root.components),
    ensures
        ({
            let hooks = editor_hooks(installer);
            &&& lifecycle_step(hooks, StateModel::Created, start) == (TransitionModel {
                state: StateModel::PreInstalling,
                action: ActionModel::Nothing,
            })
            &&& lifecycle_step(hooks, StateModel::PreInstalling, outcome) == (TransitionModel {
                state: StateModel::Failed(
                    InstallErrorModel::root(
                        ErrorKind::PathError,
                        installer.destination.text(),
                    ).wrapped(pre_install_label()),
                ),
                action: ActionModel::Nothing,
            })
        }),
{
}

/// Where `tar` cannot be found, an editor's installation fails with
/// `ToolNotFound` naming `tar`, and nothing more is asked of the environment:
/// the destination stays as the pre-install stage left it.
pub proof fn lemma_editor_reports_missing_tool(installer: InstallerModel, message: Seq<char>)
    ensures
        lifecycle_step(
            editor_hooks(installer),
            StateModel::Installing,
            OutcomeModel::Failed(FailureModel { kind: FailureKind::NotFound, message }),
        ) == (TransitionModel {
            state: StateModel::Failed(
                InstallErrorModel::root(ErrorKind::ToolNotFound, "tar"@).wrapped(install_label()),
            ),
            action: ActionModel::Nothing,
        }),
{
}

} // verus!
