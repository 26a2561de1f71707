use lx_image_builder::archive::install_tar;
use lx_image_builder::error::BuildError;
use lx_image_builder::guest::{install_tools, Distro};
use lx_image_builder::pipeline::{Action, Event, Orchestrator, Phase, Step};

/// Drives the machine: `outcome` gives the result of each action in turn.
fn drive(mut outcome: impl FnMut(&Action) -> Event) -> (Orchestrator, Vec<Action>) {
    let (mut o, mut action) = Orchestrator::new();
    let mut actions = vec![];
    while !o.is_done() {
        let ev = outcome(&action);
        actions.push(action);
        let (o1, a1) = o.next(ev);
        o = o1;
        action = a1;
    }
    actions.push(action);
    (o, actions)
}

fn destroys(actions: &[Action]) -> usize {
    actions.iter().filter(|a| **a == Action::DestroyVolume).count()
}

#[test]
fn successful_build_runs_every_step_then_destroys_once() {
    let (o, actions) = drive(|_| Event::Succeeded);
    assert_eq!(o.phase, Phase::Destroyed);
    assert_eq!(
        actions,
        vec![
            Action::Run(Step::CreateVolume),
            Action::Run(Step::PrepareRoot),
            Action::Run(Step::ExtractArchive),
            Action::Run(Step::NormalizeSkeleton),
            Action::Run(Step::InstallTools),
            Action::Run(Step::SnapshotAndCompress),
            Action::Run(Step::WriteManifest),
            Action::DestroyVolume,
            Action::Finish,
        ]
    );
}

#[test]
fn failure_at_each_step_destroys_once_and_reports_it() {
    let steps = [
        Step::PrepareRoot,
        Step::ExtractArchive,
        Step::NormalizeSkeleton,
        Step::InstallTools,
        Step::SnapshotAndCompress,
        Step::WriteManifest,
    ];
    for failing in steps {
        let (o, actions) = drive(|a| match a {
            Action::Run(s) if *s == failing => Event::Failed(BuildError::Io(format!("{:?}", s))),
            _ => Event::Succeeded,
        });
        assert_eq!(o.phase, Phase::Failed);
        assert_eq!(destroys(&actions), 1);
        assert_eq!(
            actions.last(),
            Some(&Action::Report(BuildError::Io(format!("{:?}", failing))))
        );
    }
}

#[test]
fn failure_to_allocate_volume_has_nothing_to_destroy() {
    let (o, actions) = drive(|_| Event::Failed(BuildError::VolumeCreate("no pool".to_string())));
    assert_eq!(o.phase, Phase::Failed);
    assert!(!o.created);
    assert_eq!(destroys(&actions), 0);
    assert_eq!(
        actions.last(),
        Some(&Action::Report(BuildError::VolumeCreate("no pool".to_string())))
    );
}

#[test]
fn failure_after_allocation_destroys_the_volume() {
    let err = BuildError::VolumeCreate("no mountpoint".to_string());
    let (o, actions) = drive(|a| match a {
        Action::Run(Step::PrepareRoot) => Event::Failed(BuildError::VolumeCreate("no mountpoint".to_string())),
        _ => Event::Succeeded,
    });
    assert_eq!(o.phase, Phase::Failed);
    assert!(o.created);
    assert_eq!(
        actions,
        vec![
            Action::Run(Step::CreateVolume),
            Action::Run(Step::PrepareRoot),
            Action::DestroyVolume,
            Action::Report(err),
        ]
    );
}

#[test]
fn failed_rollback_is_fatal() {
    let (o, actions) = drive(|a| match a {
        Action::Run(Step::InstallTools) => Event::Failed(BuildError::UnsupportedDistro("/r".to_string())),
        Action::DestroyVolume => Event::DestroyFailed("dataset is busy".to_string()),
        _ => Event::Succeeded,
    });
    assert_eq!(o.phase, Phase::Aborted);
    assert_eq!(destroys(&actions), 1);
    assert_eq!(actions.last(), Some(&Action::Abort("dataset is busy".to_string())));
}

#[test]
fn failed_teardown_after_success_is_fatal() {
    let (o, actions) = drive(|a| match a {
        Action::DestroyVolume => Event::DestroyFailed("busy".to_string()),
        _ => Event::Succeeded,
    });
    assert_eq!(o.phase, Phase::Aborted);
    assert_eq!(actions.last(), Some(&Action::Abort("busy".to_string())));
}

/// Runs a build whose steps compute with the library: the archive is
/// `archive`, and the staged tree holds the given distribution markers.
fn build_with(archive: &str, markers: &[&str]) -> (Orchestrator, Vec<Action>) {
    let present: Vec<bool> = Distro::candidates()
        .iter()
        .map(|d| markers.contains(&d.marker()))
        .collect();
    drive(|a| match a {
        Action::Run(Step::ExtractArchive) => match install_tar("/zones/b/root", archive) {
            Ok(_) => Event::Succeeded,
            Err(e) => Event::Failed(e),
        },
        Action::Run(Step::InstallTools) => match install_tools("/zones/b/root", &present) {
            Ok(_) => Event::Succeeded,
            Err(e) => Event::Failed(e),
        },
        _ => Event::Succeeded,
    })
}

#[test]
fn gzip_debian_build_succeeds() {
    let (o, actions) = build_with("/tmp/debian-11.gzip", &["etc/debian_version"]);
    assert_eq!(o.phase, Phase::Destroyed);
    assert_eq!(destroys(&actions), 1);
    assert_eq!(actions.last(), Some(&Action::Finish));
}

#[test]
fn tar_gz_debian_build_succeeds() {
    let (o, actions) = build_with("/tmp/debian-11.tar.gz", &["etc/debian_version"]);
    assert_eq!(o.phase, Phase::Destroyed);
    assert_eq!(destroys(&actions), 1);
    assert_eq!(actions.last(), Some(&Action::Finish));
}

#[test]
fn xz_build_without_markers_fails_with_unsupported_distro() {
    let (o, actions) = build_with("/tmp/userland.xz", &[]);
    assert_eq!(o.phase, Phase::Failed);
    assert_eq!(destroys(&actions), 1);
    assert_eq!(
        actions.last(),
        Some(&Action::Report(BuildError::UnsupportedDistro("/zones/b/root".to_string())))
    );
}

#[test]
fn zip_build_is_rejected_and_volume_destroyed() {
    let (o, actions) = build_with("/tmp/userland.zip", &["etc/debian_version"]);
    assert_eq!(o.phase, Phase::Failed);
    assert_eq!(destroys(&actions), 1);
    assert_eq!(actions[2], Action::Run(Step::ExtractArchive));
    assert_eq!(actions[3], Action::DestroyVolume);
    assert_eq!(
        actions.last(),
        Some(&Action::Report(BuildError::UnsupportedArchiveFormat("zip".to_string())))
    );
}
