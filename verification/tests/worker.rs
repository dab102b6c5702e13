use recipe_updater::decide::UpdateCommand;
use recipe_updater::manifest::{Manifest, UpstreamEntry, UpstreamValue};
use recipe_updater::monitoring::{ApiProject, Monitoring, Releases};
use recipe_updater::repo_state::Package;
use recipe_updater::worker::{Action, Event, Outcome, Worker};

fn package() -> Package {
    Package::at("/r/p/pkg".to_string())
}

fn monitoring(id: Option<u32>) -> Monitoring {
    Monitoring { releases: Releases { id, rss: None }, security: None }
}

fn manifest(upstreams: Option<Vec<UpstreamEntry>>) -> Manifest {
    Manifest {
        name: "pkg".to_string(),
        version: "1.2.0".to_string(),
        release: None,
        upstreams,
        homepage: None,
    }
}

fn archive() -> UpstreamEntry {
    UpstreamEntry {
        url: "https://example.org/pkg-1.2.0.tar.gz".to_string(),
        value: UpstreamValue::Simple("abcd1234".to_string()),
    }
}

fn answer(version: &str) -> Option<ApiProject> {
    Some(ApiProject { version: version.to_string(), homepage: None })
}

fn loaded(id: Option<u32>, upstreams: Option<Vec<UpstreamEntry>>) -> Event {
    Event::Loaded(Some((manifest(upstreams), monitoring(id))))
}

fn asking() -> Worker {
    Worker::Asking {
        package: package(),
        manifest: manifest(Some(vec![archive()])),
        monitoring: monitoring(Some(7)),
    }
}

/// Drives a worker to its end, answering each action from the given reports,
/// and lists the actions it asked for.
fn drive(
    package: Package,
    mut documents: Option<Option<(Manifest, Monitoring)>>,
    mut answered: Option<Option<ApiProject>>,
    ran: Option<bool>,
) -> (Vec<Action>, Outcome) {
    let mut seen = Vec::new();
    let (mut worker, mut action) = Worker::begin(package);
    loop {
        seen.push(action.clone());
        let event = match action {
            Action::Load { .. } => Event::Loaded(documents.take().expect("loaded twice")),
            Action::Ask(_) => Event::Answered(answered.take().expect("asked twice")),
            Action::Run { .. } => Event::Ran(ran),
            Action::Finish(outcome) => {
                assert_eq!(worker, Worker::Finished);
                return (seen, outcome);
            }
        };
        (worker, action) = worker.step(event);
    }
}

#[test]
fn worker_begins_by_loading() {
    assert_eq!(
        Worker::begin(package()),
        (
            Worker::Loading { package: package() },
            Action::Load {
                manifest: "/r/p/pkg/stone.yaml".to_string(),
                monitoring: "/r/p/pkg/monitoring.yaml".to_string(),
            }
        )
    );
}

#[test]
fn handled_package_is_finished_at_once() {
    let mut p = package();
    p.updated = true;
    assert_eq!(Worker::begin(p), (Worker::Finished, Action::Finish(Outcome::AlreadyHandled)));
}

#[test]
fn unreadable_documents_finish_the_worker() {
    let worker = Worker::Loading { package: package() };
    assert_eq!(
        worker.step(Event::Loaded(None)),
        (Worker::Finished, Action::Finish(Outcome::Unreadable))
    );
}

#[test]
fn tracked_package_is_asked_for() {
    let worker = Worker::Loading { package: package() };
    assert_eq!(
        worker.step(loaded(Some(377113), Some(vec![archive()]))),
        (
            Worker::Asking {
                package: package(),
                manifest: manifest(Some(vec![archive()])),
                monitoring: monitoring(Some(377113)),
            },
            Action::Ask("https://release-monitoring.org/api/project/377113".to_string())
        )
    );
}

#[test]
fn untracked_package_is_skipped_unasked() {
    let worker = Worker::Loading { package: package() };
    assert_eq!(
        worker.step(loaded(None, Some(vec![archive()]))),
        (Worker::Finished, Action::Finish(Outcome::Skipped))
    );
}

#[test]
fn package_without_upstream_is_skipped_unasked() {
    let worker = Worker::Loading { package: package() };
    assert_eq!(
        worker.step(loaded(Some(7), None)),
        (Worker::Finished, Action::Finish(Outcome::Skipped))
    );
    let worker = Worker::Loading { package: package() };
    assert_eq!(
        worker.step(loaded(Some(7), Some(Vec::new()))),
        (Worker::Finished, Action::Finish(Outcome::Skipped))
    );
}

#[test]
fn newer_release_has_the_updater_run() {
    assert_eq!(
        asking().step(Event::Answered(answer("1.3.0"))),
        (
            Worker::Updating { package: package() },
            Action::Run {
                directory: "/r/p/pkg".to_string(),
                command: UpdateCommand {
                    version: "1.3.0".to_string(),
                    upstream: "https://example.org/pkg-1.3.0.tar.gz".to_string(),
                },
            }
        )
    );
}

#[test]
fn unchanged_release_is_up_to_date() {
    assert_eq!(
        asking().step(Event::Answered(answer("1.2.0"))),
        (Worker::Finished, Action::Finish(Outcome::UpToDate))
    );
}

#[test]
fn missing_answer_is_skipped() {
    assert_eq!(
        asking().step(Event::Answered(None)),
        (Worker::Finished, Action::Finish(Outcome::Skipped))
    );
}

#[test]
fn end_of_the_updater_finishes_the_worker() {
    let updating = || Worker::Updating { package: package() };
    assert_eq!(
        updating().step(Event::Ran(Some(true))),
        (Worker::Finished, Action::Finish(Outcome::Updated))
    );
    assert_eq!(
        updating().step(Event::Ran(Some(false))),
        (Worker::Finished, Action::Finish(Outcome::UpdateFailed))
    );
    assert_eq!(
        updating().step(Event::Ran(None)),
        (Worker::Finished, Action::Finish(Outcome::UpdaterNotRun))
    );
}

#[test]
fn events_out_of_turn_finish_the_worker() {
    let out_of_turn = (Worker::Finished, Action::Finish(Outcome::OutOfTurn));
    assert_eq!(Worker::Loading { package: package() }.step(Event::Answered(None)), out_of_turn);
    assert_eq!(Worker::Loading { package: package() }.step(Event::Ran(Some(true))), out_of_turn);
    assert_eq!(asking().step(Event::Loaded(None)), out_of_turn);
    assert_eq!(asking().step(Event::Ran(None)), out_of_turn);
    assert_eq!(Worker::Updating { package: package() }.step(Event::Loaded(None)), out_of_turn);
    assert_eq!(Worker::Updating { package: package() }.step(Event::Answered(None)), out_of_turn);
    assert_eq!(Worker::Finished.step(Event::Loaded(None)), out_of_turn);
    assert_eq!(Worker::Finished.step(Event::Answered(None)), out_of_turn);
    assert_eq!(Worker::Finished.step(Event::Ran(Some(true))), out_of_turn);
}

#[test]
fn whole_course_of_an_update() {
    let documents = Some((manifest(Some(vec![archive()])), monitoring(Some(7))));
    let (seen, outcome) = drive(package(), Some(documents), Some(answer("1.3.0")), Some(true));
    assert_eq!(outcome, Outcome::Updated);
    assert_eq!(
        seen,
        vec![
            Action::Load {
                manifest: "/r/p/pkg/stone.yaml".to_string(),
                monitoring: "/r/p/pkg/monitoring.yaml".to_string(),
            },
            Action::Ask("https://release-monitoring.org/api/project/7".to_string()),
            Action::Run {
                directory: "/r/p/pkg".to_string(),
                command: UpdateCommand {
                    version: "1.3.0".to_string(),
                    upstream: "https://example.org/pkg-1.3.0.tar.gz".to_string(),
                },
            },
            Action::Finish(Outcome::Updated),
        ]
    );
}

#[test]
fn one_unreadable_package_among_several() {
    let run = |broken: Option<usize>| -> Vec<Outcome> {
        let mut outcomes = Vec::new();
        for (i, version) in ["1.3.0", "1.2.0", "1.4.0", "1.2.0"].into_iter().enumerate() {
            let documents = if broken == Some(i) {
                None
            } else {
                Some((manifest(Some(vec![archive()])), monitoring(Some(7))))
            };
            let package = Package::at(format!("/r/p/{i}"));
            outcomes.push(drive(package, Some(documents), Some(answer(version)), Some(i != 2)).1);
        }
        outcomes
    };
    assert_eq!(
        run(None),
        vec![Outcome::Updated, Outcome::UpToDate, Outcome::UpdateFailed, Outcome::UpToDate]
    );
    assert_eq!(
        run(Some(0)),
        vec![Outcome::Unreadable, Outcome::UpToDate, Outcome::UpdateFailed, Outcome::UpToDate]
    );
    assert_eq!(
        run(Some(1)),
        vec![Outcome::Updated, Outcome::Unreadable, Outcome::UpdateFailed, Outcome::UpToDate]
    );
    assert_eq!(
        run(Some(2)),
        vec![Outcome::Updated, Outcome::UpToDate, Outcome::Unreadable, Outcome::UpToDate]
    );
}
