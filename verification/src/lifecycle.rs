//! The install lifecycle: one state machine for every kind of installer.
//!
//! An installation goes `Created`, `PreInstalling`, `Installing`,
//! `PostInstalling`, `Done`; each of the three working states can end in
//! `Failed` instead. What differs between installers is what each stage asks
//! of the environment, and that is all an `InstallHandler` says. The machine
//! itself, `InstallHandler::install`, is written once.
//!
//! The caller owns the loop: it starts with `InstallState::Created`, carries
//! out the action of each `Transition`, and hands the outcome to the next
//! call, until the state is final. The action that comes with a final state
//! is still carried out; its outcome changes nothing.

use vstd::prelude::*;
use crate::action::{Action, ActionModel};
use crate::error::{Failure, FailureModel, InstallError, InstallErrorModel};

verus! {

/// The label wrapped round a failure before installing.
pub open spec fn pre_install_label() -> Seq<char> {
    "pre install step failed"@
}

/// The label wrapped round a failure while installing.
pub open spec fn install_label() -> Seq<char> {
    "installation failed"@
}

/// The label wrapped round a failure after installing.
pub open spec fn post_install_label() -> Seq<char> {
    "post install step failed"@
}

/// Where an installation stands.
#[derive(Debug)]
pub enum InstallState {
    Created,
    PreInstalling,
    Installing,
    PostInstalling,
    Done,
    /// The installation failed; the error holds the cause and the labels of
    /// the stages it passed through.
    Failed(InstallError),
}

/// The mathematical value of an `InstallState`.
pub enum StateModel {
    Created,
    PreInstalling,
    Installing,
    PostInstalling,
    Done,
    Failed(InstallErrorModel),
}

impl View for InstallState {
    type V = StateModel;

    open spec fn view(&self) -> StateModel {
        match self {
            InstallState::Created => StateModel::Created,
            InstallState::PreInstalling => StateModel::PreInstalling,
            InstallState::Installing => StateModel::Installing,
            InstallState::PostInstalling => StateModel::PostInstalling,
            InstallState::Done => StateModel::Done,
            InstallState::Failed(error) => StateModel::Failed(error@),
        }
    }
}

impl StateModel {
    /// Whether the installation has ended, well or badly.
    pub open spec fn is_final(self) -> bool {
        self is Done || self is Failed
    }
}

impl InstallState {
    /// Whether the installation has ended, well or badly.
    pub fn is_final(&self) -> (ended: bool)
        ensures
            ended == self@.is_final(),
    {
        match self {
            InstallState::Done => true,
            InstallState::Failed(_) => true,
            _ => false,
        }
    }
}

/// What became of the last action.
#[derive(Debug)]
pub enum Outcome {
    Succeeded,
    Failed(Failure),
}

/// The mathematical value of an `Outcome`.
pub enum OutcomeModel {
    Succeeded,
    Failed(FailureModel),
}

impl View for Outcome {
    type V = OutcomeModel;

    open spec fn view(&self) -> OutcomeModel {
        match self {
            Outcome::Succeeded => OutcomeModel::Succeeded,
            Outcome::Failed(failure) => OutcomeModel::Failed(failure@),
        }
    }
}

/// The state after a step, and what the environment is to do next.
#[derive(Debug)]
pub struct Transition {
    pub state: InstallState,
    pub action: Action,
}

/// The mathematical value of a `Transition`.
pub struct TransitionModel {
    pub state: StateModel,
    pub action: ActionModel,
}

impl View for Transition {
    type V = TransitionModel;

    open spec fn view(&self) -> TransitionModel {
        TransitionModel { state: self.state@, action: self.action@ }
    }
}

/// What a stage asks of the environment, or why it refuses to start.
pub type Plan = Result<Action, InstallError>;

/// The mathematical value of a `Plan`.
pub type PlanModel = Result<ActionModel, InstallErrorModel>;

/// The value of a plan.
pub open spec fn plan_model(plan: Plan) -> PlanModel {
    match plan {
        Ok(action) => Ok(action@),
        Err(error) => Err(error@),
    }
}

/// The action of a plan; a stage that refuses asks for nothing.
pub open spec fn planned_action(plan: PlanModel) -> ActionModel {
    match plan {
        Ok(action) => action,
        Err(_) => ActionModel::Nothing,
    }
}

/// What the four hooks of an installer decide.
pub struct Hooks {
    pub before_install: PlanModel,
    pub install: PlanModel,
    pub after_install: PlanModel,
    pub recovery: ActionModel,
}

/// How a working stage ends: `Err` with the stage's error where the stage
/// refused or its action failed, `Ok` where the action succeeded.
pub open spec fn stage_result(plan: PlanModel, outcome: OutcomeModel, label: Seq<char>) -> Result<
    (),
    InstallErrorModel,
> {
    match plan {
        Err(refusal) => Err(refusal.wrapped(label)),
        Ok(action) => match outcome {
            OutcomeModel::Failed(failure) => Err(action.failure(failure).wrapped(label)),
            OutcomeModel::Succeeded => Ok(()),
        },
    }
}

/// One step of the lifecycle.
///
/// `outcome` is what became of the action that the step into `state` handed
/// out. Leaving `Created` starts the pre-install stage whatever the outcome
/// says. A working stage that refused, or whose action failed, ends in
/// `Failed` with its error under the stage's label; only a failure while
/// installing is followed by the recovery action. Otherwise the next stage
/// starts with its action. `Done` and `Failed` are never left.
pub open spec fn lifecycle_step(hooks: Hooks, state: StateModel, outcome: OutcomeModel)
    -> TransitionModel {
    match state {
        StateModel::Created => TransitionModel {
            state: StateModel::PreInstalling,
            action: planned_action(hooks.before_install),
        },
        StateModel::PreInstalling => match stage_result(
            hooks.before_install,
            outcome,
            pre_install_label(),
        ) {
            Err(error) => TransitionModel {
                state: StateModel::Failed(error),
                action: ActionModel::Nothing,
            },
            Ok(_) => TransitionModel {
                state: StateModel::Installing,
                action: planned_action(hooks.install),
            },
        },
        StateModel::Installing => match stage_result(hooks.install, outcome, install_label()) {
            Err(error) => TransitionModel {
                state: StateModel::Failed(error),
                action: hooks.recovery,
            },
            Ok(_) => TransitionModel {
                state: StateModel::PostInstalling,
                action: planned_action(hooks.after_install),
            },
        },
        StateModel::PostInstalling => match stage_result(
            hooks.after_install,
            outcome,
            post_install_label(),
        ) {
            Err(error) => TransitionModel {
                state: StateModel::Failed(error),
                action: ActionModel::Nothing,
            },
            Ok(_) => TransitionModel { state: StateModel::Done, action: ActionModel::Nothing },
        },
        StateModel::Done => TransitionModel { state: StateModel::Done, action: ActionModel::Nothing },
        StateModel::Failed(error) => TransitionModel {
            state: StateModel::Failed(error),
            action: ActionModel::Nothing,
        },
    }
}

/// How a working stage ends.
fn end_stage(plan: Plan, outcome: Outcome, label: &str) -> (result: Result<(), InstallError>)
    ensures
        match result {
            Ok(_) => stage_result(plan_model(plan), outcome@, label@) is Ok,
            Err(error) => stage_result(plan_model(plan), outcome@, label@) == Err::<
                (),
                InstallErrorModel,
            >(error@),
        },
{
    match plan {
        Err(refusal) => Err(refusal.chain_err(label)),
        Ok(action) => match outcome {
            Outcome::Failed(failure) => Err(action.failure(failure).chain_err(label)),
            Outcome::Succeeded => Ok(()),
        },
    }
}

/// The action of a plan; a stage that refuses asks for nothing.
fn action_of(plan: Plan) -> (action: Action)
    ensures
        action@ == planned_action(plan_model(plan)),
{
    match plan {
        Ok(action) => action,
        Err(_) => Action::Nothing,
    }
}

/// The hooks by which installers differ, and the lifecycle that they share.
pub trait InstallHandler {
    /// What `before_install` decides.
    spec fn before_install_plan(&self) -> PlanModel;

    /// What `install_handler` decides.
    spec fn install_plan(&self) -> PlanModel;

    /// What `after_install` decides.
    spec fn after_install_plan(&self) -> PlanModel;

    /// What `error_handler` decides.
    spec fn recovery_plan(&self) -> ActionModel;

    /// How the destination is prepared.
    fn before_install(&self) -> (plan: Plan)
        ensures
            plan_model(plan) == self.before_install_plan(),
    ;

    /// How the archive is unpacked.
    fn install_handler(&self) -> (plan: Plan)
        ensures
            plan_model(plan) == self.install_plan(),
    ;

    /// How the installation is finished.
    fn after_install(&self) -> (plan: Plan)
        ensures
            plan_model(plan) == self.after_install_plan(),
    ;

    /// What is tidied up after a failure to install. Whether that works has
    /// no bearing on the installation's result.
    fn error_handler(&self) -> (action: Action)
        ensures
            action@ == self.recovery_plan(),
    ;

    /// One step of the installation: from `state`, and the `outcome` of the
    /// action that the step before handed out, to the next state and action.
    /// An installation starts from `Created`, where the outcome counts for
    /// nothing.
    fn install(&self, state: InstallState, outcome: Outcome) -> (next: Transition)
        ensures
            next@ == lifecycle_step(
                (Hooks {
                    before_install: self.before_install_plan(),
                    install: self.install_plan(),
                    after_install: self.after_install_plan(),
                    recovery: self.recovery_plan(),
                }),
                state@,
                outcome@,
            ),
    {
        match state {
            InstallState::Created => Transition {
                state: InstallState::PreInstalling,
                action: action_of(self.before_install()),
            },
            InstallState::PreInstalling => match end_stage(
                self.before_install(),
                outcome,
                "pre install step failed",
            ) {
                Err(error) => Transition {
                    state: InstallState::Failed(error),
                    action: Action::Nothing,
                },
                Ok(_) => Transition {
                    state: InstallState::Installing,
                    action: action_of(self.install_handler()),
                },
            },
            InstallState::Installing => match end_stage(
                self.install_handler(),
                outcome,
                "installation failed",
            ) {
                Err(error) => Transition {
                    state: InstallState::Failed(error),
                    action: self.error_handler(),
                },
                Ok(_) => Transition {
                    state: InstallState::PostInstalling,
                    action: action_of(self.after_install()),
                },
            },
            InstallState::PostInstalling => match end_stage(
                self.after_install(),
                outcome,
                "post install step failed",
            ) {
                Err(error) => Transition {
                    state: InstallState::Failed(error),
                    action: Action::Nothing,
                },
                Ok(_) => Transition { state: InstallState::Done, action: Action::Nothing },
            },
            InstallState::Done => Transition { state: InstallState::Done, action: Action::Nothing },
            InstallState::Failed(error) => Transition {
                state: InstallState::Failed(error),
                action: Action::Nothing,
            },
        }
    }
}


/// Whether the lifecycle can go from `from` to `to` in one step.
pub open spec fn may_follow(from: StateModel, to: StateModel) -> bool {
    match from {
        StateModel::Created => to is PreInstalling,
        StateModel::PreInstalling => to is Installing || to is Failed,
        StateModel::Installing => to is PostInstalling || to is Failed,
        StateModel::PostInstalling => to is Done || to is Failed,
        StateModel::Done => to is Done,
        StateModel::Failed(error) => to == from,
    }
}

/// Every step follows the lifecycle: the stages come in their order, only a
/// working stage can fail, and a stage moves on exactly when it neither
/// refused nor failed.
pub proof fn lemma_steps_follow_lifecycle(hooks: Hooks, state: StateModel, outcome: OutcomeModel)
    ensures
        may_follow(state, lifecycle_step(hooks, state, outcome).state),
        state is PreInstalling ==> (lifecycle_step(hooks, state, outcome).state is Installing
            <==> hooks.before_install is Ok && outcome is Succeeded),
        state is Installing ==> (lifecycle_step(hooks, state, outcome).state is PostInstalling
            <==> hooks.install is Ok && outcome is Succeeded),
        state is PostInstalling ==> (lifecycle_step(hooks, state, outcome).state is Done
            <==> hooks.after_install is Ok && outcome is Succeeded),
{
}

/// An installation that has ended stays as it is and asks for nothing more,
/// whatever is reported to it.
pub proof fn lemma_final_states_stay(hooks: Hooks, state: StateModel, outcome: OutcomeModel)
    requires
        state.is_final(),
    ensures
        lifecycle_step(hooks, state, outcome) == (TransitionModel {
            state,
            action: ActionModel::Nothing,
        }),
{
}

/// A failure carries the label of the stage that failed as its outermost
/// label, round the error of the stage itself. With the failure the machine
/// asks for nothing, except after a failure to install, where it asks for
/// the recovery action.
pub proof fn lemma_failure_names_its_stage(hooks: Hooks, state: StateModel, outcome: OutcomeModel)
    requires
        !state.is_final(),
        lifecycle_step(hooks, state, outcome).state is Failed,
    ensures
        ({
            let failed = lifecycle_step(hooks, state, outcome);
            let error = failed.state->Failed_0;
            &&& error.context.len() >= 1
            &&& state is PreInstalling ==> error.context[0] == pre_install_label()
            &&& state is Installing ==> error.context[0] == install_label()
            &&& state is PostInstalling ==> error.context[0] == post_install_label()
            &&& failed.action == if state is Installing {
                hooks.recovery
            } else {
                ActionModel::Nothing
            }
        }),
{
}

/// The recovery action cannot change the result. After a failure to install
/// the machine asks for the recovery action and is already `Failed` with the
/// error of the installing stage; whatever is reported of the recovery, it
/// stays `Failed` with that same error.
pub proof fn lemma_recovery_keeps_the_cause(
    hooks: Hooks,
    outcome: OutcomeModel,
    recovery_outcome: OutcomeModel,
)
    requires
        stage_result(hooks.install, outcome, install_label()) is Err,
    ensures
        ({
            let failed = lifecycle_step(hooks, StateModel::Installing, outcome);
            &&& failed.action == hooks.recovery
            &&& failed.state == StateModel::Failed(
                stage_result(hooks.install, outcome, install_label())->Err_0,
            )
            &&& lifecycle_step(hooks, failed.state, recovery_outcome).state == failed.state
        }),
{
}

} // verus!
