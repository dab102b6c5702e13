//! The course of handling one package.
//!
//! Handling a package takes outside work: its two documents are read, the
//! release-tracking service is asked, the updater is run. The caller does
//! that work; a [`Worker`] says what is to be done next and takes back what
//! came of it. A worker knows of its own package only, so what happens to one
//! package has no bearing on another.

use crate::decide::{
    decided_for, lemma_without_answer_is_skip, Decision, DecisionModel, UpdateCommand,
    UpdateCommandModel,
};
use crate::manifest::Manifest;
use crate::monitoring::{ApiProject, Monitoring};
use crate::repo_state::Package;
use crate::resolve::request_of;
use vstd::prelude::*;

verus! {

/// How handling a package ended.
#[derive(Debug, Clone, Copy, PartialEq, Eq, Structural)]
pub enum Outcome {
    /// The package had been handled before; nothing was done.
    AlreadyHandled,
    /// A document of the package could not be read or decoded.
    Unreadable,
    /// Nothing certain is known of a newer version.
    Skipped,
    /// The package is up to date.
    UpToDate,
    /// The updater ran and succeeded.
    Updated,
    /// The updater ran and failed.
    UpdateFailed,
    /// The updater could not be run.
    UpdaterNotRun,
    /// Something was reported that the worker was not waiting for.
    OutOfTurn,
}

/// What the caller reports back to a worker.
#[derive(Debug, PartialEq, Eq)]
pub enum Event {
    /// The documents were read: the manifest and the monitoring descriptor,
    /// or `None` where one of them could not be read or decoded.
    Loaded(Option<(Manifest, Monitoring)>),
    /// The release-tracking service was asked: its answer, or `None` where
    /// none came.
    Answered(Option<ApiProject>),
    /// The updater was run: whether it succeeded, or `None` where it could
    /// not be run at all.
    Ran(Option<bool>),
}

/// What a worker asks the caller to do.
#[derive(Debug, Clone, PartialEq, Eq)]
pub enum Action {
    /// Read the manifest and the monitoring descriptor at these paths.
    Load { manifest: String, monitoring: String },
    /// Ask the release-tracking service at this address.
    Ask(String),
    /// Run the updater with this command in this directory.
    Run { directory: String, command: UpdateCommand },
    /// Nothing more: the package is handled, with this outcome.
    Finish(Outcome),
}

/// The mathematical form of an [`Action`].
pub enum ActionModel {
    Load { manifest: Seq<char>, monitoring: Seq<char> },
    Ask(Seq<char>),
    Run { directory: Seq<char>, command: UpdateCommandModel },
    Finish(Outcome),
}

impl View for Action {
    type V = ActionModel;

    open spec fn view(&self) -> ActionModel {
        match self {
            Action::Load { manifest, monitoring } => ActionModel::Load {
                manifest: manifest@,
                monitoring: monitoring@,
            },
            Action::Ask(url) => ActionModel::Ask(url@),
            Action::Run { directory, command } => ActionModel::Run {
                directory: directory@,
                command: command@,
            },
            Action::Finish(outcome) => ActionModel::Finish(*outcome),
        }
    }
}

/// What a worker is waiting for.
#[derive(Debug, PartialEq, Eq)]
pub enum Worker {
    /// The documents of the package.
    Loading { package: Package },
    /// The answer of the release-tracking service.
    Asking { package: Package, manifest: Manifest, monitoring: Monitoring },
    /// The end of the updater.
    Updating { package: Package },
    /// Nothing: the package is handled.
    Finished,
}

/// How a worker begins: a package that has been handled is finished at once,
/// any other has its documents read.
pub open spec fn begun(package: Package) -> (Worker, ActionModel) {
    if package.updated {
        (Worker::Finished, ActionModel::Finish(Outcome::AlreadyHandled))
    } else {
        (
            Worker::Loading { package },
            ActionModel::Load { manifest: package.manifest@, monitoring: package.monitoring@ },
        )
    }
}

/// What follows from the decision for a package: an update has the updater
/// run in the directory of the package, anything else finishes the worker.
pub open spec fn acted(package: Package, decision: Option<DecisionModel>) -> (Worker, ActionModel) {
    match decision {
        Some(DecisionModel::Update(command)) => (
            Worker::Updating { package },
            ActionModel::Run { directory: package.path@, command },
        ),
        Some(DecisionModel::NoOp) => (Worker::Finished, ActionModel::Finish(Outcome::UpToDate)),
        Some(DecisionModel::Skip) => (Worker::Finished, ActionModel::Finish(Outcome::Skipped)),
        None => (Worker::Finished, ActionModel::Finish(Outcome::AlreadyHandled)),
    }
}

/// What a worker makes of an event: the worker it becomes and what it asks
/// for next.
///
/// Documents that could not be read finish the worker. Documents that were
/// read lead to a question to the release-tracking service where there is
/// something to ask, else to the decision without an answer. An answer leads
/// to the decision. The end of the updater finishes the worker, as does any
/// event that the worker was not waiting for.
pub open spec fn stepped(worker: Worker, event: Event) -> (Worker, ActionModel) {
    match worker {
        Worker::Loading { package } => match event {
            Event::Loaded(Some((manifest, monitoring))) => match request_of(
                package.updated,
                &manifest,
                monitoring.releases.id,
            ) {
                Some(url) => (
                    Worker::Asking { package, manifest, monitoring },
                    ActionModel::Ask(url),
                ),
                None => acted(
                    package,
                    decided_for(package.updated, &manifest, monitoring.releases.id, None),
                ),
            },
            Event::Loaded(None) => (Worker::Finished, ActionModel::Finish(Outcome::Unreadable)),
            _ => (Worker::Finished, ActionModel::Finish(Outcome::OutOfTurn)),
        },
        Worker::Asking { package, manifest, monitoring } => match event {
            Event::Answered(answer) => acted(
                package,
                decided_for(package.updated, &manifest, monitoring.releases.id, answer),
            ),
            _ => (Worker::Finished, ActionModel::Finish(Outcome::OutOfTurn)),
        },
        Worker::Updating { package } => match event {
            Event::Ran(Some(true)) => (Worker::Finished, ActionModel::Finish(Outcome::Updated)),
            Event::Ran(Some(false)) => (
                Worker::Finished,
                ActionModel::Finish(Outcome::UpdateFailed),
            ),
            Event::Ran(None) => (Worker::Finished, ActionModel::Finish(Outcome::UpdaterNotRun)),
            _ => (Worker::Finished, ActionModel::Finish(Outcome::OutOfTurn)),
        },
        Worker::Finished => (Worker::Finished, ActionModel::Finish(Outcome::OutOfTurn)),
    }
}

/// Acts on the decision for `package`, as [`acted`] says.
fn act(package: Package, decision: Option<Decision>) -> (r: (Worker, Action))
    ensures
        r.0 == acted(package, decision_model(decision)).0,
        r.1@ == acted(package, decision_model(decision)).1,
{
    match decision {
        Some(Decision::Update(command)) => {
            let directory = package.path.clone();
            (Worker::Updating { package }, Action::Run { directory, command })
        },
        Some(Decision::NoOp) => (Worker::Finished, Action::Finish(Outcome::UpToDate)),
        Some(Decision::Skip) => (Worker::Finished, Action::Finish(Outcome::Skipped)),
        None => (Worker::Finished, Action::Finish(Outcome::AlreadyHandled)),
    }
}

/// A decision, if there is one, in its mathematical form.
pub open spec fn decision_model(decision: Option<Decision>) -> Option<DecisionModel> {
    match decision {
        Some(d) => Some(d@),
        None => None,
    }
}

impl Worker {
    /// Begins to handle `package`, as [`begun`] says.
    pub fn begin(package: Package) -> (r: (Worker, Action))
        ensures
            r.0 == begun(package).0,
            r.1@ == begun(package).1,
    {
        if package.updated {
            (Worker::Finished, Action::Finish(Outcome::AlreadyHandled))
        } else {
            let manifest = package.manifest.clone();
            let monitoring = package.monitoring.clone();
            (Worker::Loading { package }, Action::Load { manifest, monitoring })
        }
    }

    /// Takes what came of the last action and says what is to be done next,
    /// as [`stepped`] says.
    pub fn step(self, event: Event) -> (r: (Worker, Action))
        ensures
            r.0 == stepped(self, event).0,
            r.1@ == stepped(self, event).1,
    {
        match self {
            Worker::Loading { package } => match event {
                Event::Loaded(Some((manifest, monitoring))) => {
                    match package.lookup_request(&manifest, &monitoring) {
                        Some(url) => (
                            Worker::Asking { package, manifest, monitoring },
                            Action::Ask(url),
                        ),
                        None => {
                            let decision = package.update(&manifest, &monitoring, None);
                            act(package, decision)
                        },
                    }
                },
                Event::Loaded(None) => (Worker::Finished, Action::Finish(Outcome::Unreadable)),
                _ => (Worker::Finished, Action::Finish(Outcome::OutOfTurn)),
            },
            Worker::Asking { package, manifest, monitoring } => match event {
                Event::Answered(answer) => {
                    let decision = package.update(&manifest, &monitoring, answer);
                    act(package, decision)
                },
                _ => (Worker::Finished, Action::Finish(Outcome::OutOfTurn)),
            },
            Worker::Updating { package } => match event {
                Event::Ran(Some(true)) => (Worker::Finished, Action::Finish(Outcome::Updated)),
                Event::Ran(Some(false)) => (
                    Worker::Finished,
                    Action::Finish(Outcome::UpdateFailed),
                ),
                Event::Ran(None) => (Worker::Finished, Action::Finish(Outcome::UpdaterNotRun)),
                _ => (Worker::Finished, Action::Finish(Outcome::OutOfTurn)),
            },
            Worker::Finished => (Worker::Finished, Action::Finish(Outcome::OutOfTurn)),
        }
    }

    /// How many events a worker can still take before it is finished.
    pub open spec fn steps_left(&self) -> nat {
        match self {
            Worker::Loading { .. } => 3,
            Worker::Asking { .. } => 2,
            Worker::Updating { .. } => 1,
            Worker::Finished => 0,
        }
    }
}

/// The action that belongs to a worker that is waiting: a finished worker
/// asks for nothing more, and only a finished worker does.
pub open spec fn in_step(worker: Worker, action: ActionModel) -> bool {
    match worker {
        Worker::Loading { .. } => action is Load,
        Worker::Asking { .. } => action is Ask,
        Worker::Updating { .. } => action is Run,
        Worker::Finished => action is Finish,
    }
}

/// Every event brings a worker nearer to its end, and what it asks for next
/// is what it then waits for.
pub proof fn lemma_worker_ends(worker: Worker, event: Event)
    ensures
        worker !is Finished ==> stepped(worker, event).0.steps_left() < worker.steps_left(),
        in_step(stepped(worker, event).0, stepped(worker, event).1),
{
}

/// A worker begins by waiting for what it asks for.
pub proof fn lemma_worker_begins_in_step(package: Package)
    ensures
        in_step(begun(package).0, begun(package).1),
{
}

/// The updater is run only on the decision to update, with the command of
/// that decision and in the directory of the package.
pub proof fn lemma_run_follows_update(worker: Worker, event: Event)
    ensures
        stepped(worker, event).1 matches ActionModel::Run { directory, command } ==> (worker
            matches Worker::Asking { package, manifest, monitoring } && event
            matches Event::Answered(answer) && directory == package.path@ && decided_for(
            package.updated,
            &manifest,
            monitoring.releases.id,
            answer,
        ) == Some(DecisionModel::Update(command))),
{
    match worker {
        Worker::Loading { package } => match event {
            Event::Loaded(Some((manifest, monitoring))) => {
                lemma_without_answer_is_skip(&manifest, monitoring.releases.id, None);
            },
            _ => {},
        },
        _ => {},
    }
}

/// What the outside work for one package comes to, for each piece of work
/// that a worker may ask for.
pub struct Reports {
    pub loaded: Option<(Manifest, Monitoring)>,
    pub answered: Option<ApiProject>,
    pub ran: Option<bool>,
}

/// The event that reports what came of an action.
pub open spec fn report_of(action: ActionModel, reports: Reports) -> Event {
    match action {
        ActionModel::Ask(_) => Event::Answered(reports.answered),
        ActionModel::Run { .. } => Event::Ran(reports.ran),
        _ => Event::Loaded(reports.loaded),
    }
}

/// The outcome with which a worker finishes when each of its actions is
/// answered by the report that belongs to it.
pub open spec fn finished_with(worker: Worker, action: ActionModel, reports: Reports) -> Outcome
    decreases worker.steps_left(),
{
    match action {
        ActionModel::Finish(outcome) => outcome,
        _ => if worker is Finished {
            Outcome::OutOfTurn
        } else {
            let next = stepped(worker, report_of(action, reports));
            finished_with(next.0, next.1, reports)
        },
    }
}

/// How the handling of a package ends, given what the outside work comes
/// to: a package handled before is left alone; unreadable documents end it;
/// else the decision counts, made on the answer of the release-tracking
/// service where there was something to ask, and an update ends as the
/// updater does.
pub open spec fn outcome_for(package: Package, reports: Reports) -> Outcome {
    if package.updated {
        Outcome::AlreadyHandled
    } else {
        match reports.loaded {
            None => Outcome::Unreadable,
            Some((manifest, monitoring)) => {
                let id = monitoring.releases.id;
                let answer = if request_of(false, &manifest, id) is Some {
                    reports.answered
                } else {
                    None
                };
                match decided_for(false, &manifest, id, answer) {
                    Some(DecisionModel::Update(_)) => match reports.ran {
                        Some(true) => Outcome::Updated,
                        Some(false) => Outcome::UpdateFailed,
                        None => Outcome::UpdaterNotRun,
                    },
                    Some(DecisionModel::NoOp) => Outcome::UpToDate,
                    Some(DecisionModel::Skip) => Outcome::Skipped,
                    None => Outcome::AlreadyHandled,
                }
            },
        }
    }
}

/// A worker whose actions are answered in turn finishes with the outcome
/// that [`outcome_for`] gives: it depends on the package and on what the
/// outside work for this package came to, and on nothing else.
pub proof fn lemma_worker_finishes_with_outcome(package: Package, reports: Reports)
    ensures
        finished_with(begun(package).0, begun(package).1, reports) == outcome_for(
            package,
            reports,
        ),
{
    reveal_with_fuel(finished_with, 4);
    if !package.updated {
        match reports.loaded {
            Some((manifest, monitoring)) => {
                lemma_without_answer_is_skip(&manifest, monitoring.releases.id, None);
            },
            None => {},
        }
    }
}

/// In a run over several packages, a package whose documents cannot be read
/// ends as unreadable and leaves the outcome of every other package as it
/// would have been.
pub proof fn lemma_unreadable_package_is_isolated(
    packages: Seq<Package>,
    reports: Seq<Reports>,
    broken: int,
)
    requires
        packages.len() == reports.len(),
        0 <= broken < packages.len(),
    ensures
        ({
            let spoiled = reports.update(
                broken,
                Reports {
                    loaded: None,
                    answered: reports[broken].answered,
                    ran: reports[broken].ran,
                },
            );
            &&& !packages[broken].updated ==> outcome_for(packages[broken], spoiled[broken])
                == Outcome::Unreadable
            &&& forall|other: int|
                0 <= other < packages.len() && other != broken ==> outcome_for(
                    packages[other],
                    #[trigger] spoiled[other],
                ) == outcome_for(packages[other], reports[other])
        }),
{
}

/// Documents that cannot be read finish the worker at once: nothing is asked
/// and nothing is run.
pub proof fn lemma_unreadable_finishes(package: Package)
    ensures
        stepped(Worker::Loading { package }, Event::Loaded(None)) == (
            Worker::Finished,
            ActionModel::Finish(Outcome::Unreadable),
        ),
{
}

/// A package without a tracking identifier is skipped without a question to
/// the release-tracking service.
pub proof fn lemma_untracked_is_skipped_unasked(
    package: Package,
    manifest: Manifest,
    monitoring: Monitoring,
)
    requires
        !package.updated,
        monitoring.releases.id is None,
    ensures
        stepped(Worker::Loading { package }, Event::Loaded(Some((manifest, monitoring)))) == (
            Worker::Finished,
            ActionModel::Finish(Outcome::Skipped),
        ),
{
}

} // verus!
