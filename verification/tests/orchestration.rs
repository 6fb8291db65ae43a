use deploy::checksum::ChecksumMap;
use deploy::config::{Config, DeployPackage, DeployTarget};
use deploy::coordinator::DeploymentCoordinator;
use deploy::digest::local_digest;
use deploy::packaging::PackageCreator;
use deploy::actions::RemoteActionRunner;
use deploy::state_machine::{
    run_with_successes, DeployAction, DeployEvent, DeployPhase, PhaseCompletionSet,
    TargetDeploymentStateMachine,
};
use deploy::ui_state::{UIStore, UITargetState};
use deploy::upload::{drive_upload, ChunkEvent, ChunkedUploader, UploadAction};

fn strings(v: &[&str]) -> Vec<String> {
    v.iter().map(|s| s.to_string()).collect()
}

fn empty_map() -> ChecksumMap {
    ChecksumMap::empty()
}

#[test]
fn uploader_walks_chunks_and_finishes() {
    let mut up = ChunkedUploader::with_config(100, 40, 5);
    assert_eq!(up.next_action(), UploadAction::WriteChunk { offset: 0, len: 40 });
    up.apply(ChunkEvent::WriteOk);
    assert_eq!(up.next_action(), UploadAction::WriteChunk { offset: 40, len: 40 });
    up.apply(ChunkEvent::WriteOk);
    assert_eq!(up.next_action(), UploadAction::WriteChunk { offset: 80, len: 20 });
    up.apply(ChunkEvent::WriteOk);
    assert_eq!(up.next_action(), UploadAction::Finished);
    assert_eq!(up.uploaded, 100);
}

#[test]
fn uploader_defaults() {
    let up = ChunkedUploader::new(1);
    assert_eq!(up.chunk_size, 40960);
    assert_eq!(up.retry_bound, 5);
}

#[test]
fn chunk_retries_within_bound_then_success() {
    let mut up = ChunkedUploader::with_config(10, 10, 2);
    up.apply(ChunkEvent::WriteFailed);
    up.apply(ChunkEvent::WriteFailed);
    assert!(matches!(up.next_action(), UploadAction::WriteChunk { .. }));
    up.apply(ChunkEvent::WriteOk);
    assert_eq!(up.next_action(), UploadAction::Finished);
}

#[test]
fn exhausted_chunk_retries_abort_the_phase() {
    let mut up = ChunkedUploader::with_config(10, 10, 2);
    up.apply(ChunkEvent::WriteFailed);
    up.apply(ChunkEvent::WriteFailed);
    up.apply(ChunkEvent::WriteFailed);
    assert_eq!(up.next_action(), UploadAction::AbortPhase);
    assert_eq!(up.uploaded, 0);
}

#[test]
fn upload_completes_under_injected_failures() {
    // With at most the retry bound of failures injected per chunk, the
    // upload finishes with every byte written and progress non-decreasing.
    let mut up = ChunkedUploader::with_config(100, 40, 5);
    let progress = drive_upload(&mut up, &vec![1, 0, 4]);
    assert_eq!(progress, vec![40, 80, 100]);
    assert_eq!(up.uploaded, 100);
    assert!(!up.aborted);
    for w in progress.windows(2) {
        assert!(w[0] <= w[1]);
    }
}

#[test]
fn completion_set_skips_marked_packages() {
    let mut set = PhaseCompletionSet::new(3);
    assert_eq!(set.first_incomplete(), Some(0));
    set.mark_complete(0);
    assert_eq!(set.first_incomplete(), Some(1));
    assert!(set.is_complete(0));
    assert!(!set.is_complete(2));
    set.mark_complete(1);
    set.mark_complete(2);
    assert_eq!(set.first_incomplete(), None);
}

#[test]
fn machine_with_no_packages_is_done_at_once() {
    let m = TargetDeploymentStateMachine::new(Vec::new());
    assert_eq!(m.next_action(), DeployAction::Done);
}

#[test]
fn phase_retry_does_not_reprocess_completed_package() {
    // Package 0 completes its checksum work; then the connection drops.
    // The phase retry must not reprocess package 0: a per-package call
    // counter sees exactly one checksum action for it.
    let mut m = TargetDeploymentStateMachine::new(strings(&["A", "B"]));
    let mut checksum_calls = [0usize; 2];
    assert_eq!(m.next_action(), DeployAction::ChecksumPackage { package_index: 0 });
    checksum_calls[0] += 1;
    m.apply(DeployEvent::ChecksumDone {
        temp_path: "/tmp/a".to_string(),
        checksums: empty_map(),
    });
    // Simulated disconnect: the phase restarts, completion markers stay.
    m.apply(DeployEvent::Transient);
    match m.next_action() {
        DeployAction::ChecksumPackage { package_index } => {
            checksum_calls[package_index] += 1;
            assert_eq!(package_index, 1);
        }
        other => panic!("unexpected action {:?}", other),
    }
    assert_eq!(checksum_calls, [1, 1]);
}

#[test]
fn transient_failure_leaves_machine_unchanged() {
    let mut m = TargetDeploymentStateMachine::new(strings(&["A"]));
    let before_phase = m.phase;
    m.apply(DeployEvent::Transient);
    assert_eq!(m.phase, before_phase);
    assert_eq!(m.next_action(), DeployAction::ChecksumPackage { package_index: 0 });
}

#[test]
fn fatal_failure_abandons_the_target() {
    let mut m = TargetDeploymentStateMachine::new(strings(&["A"]));
    m.apply(DeployEvent::Fatal);
    assert_eq!(m.phase, DeployPhase::Failed);
    assert_eq!(m.next_action(), DeployAction::Failed);
}

#[test]
fn run_with_successes_reaches_done() {
    let mut m = TargetDeploymentStateMachine::new(strings(&["A", "B", "C"]));
    run_with_successes(&mut m);
    assert_eq!(m.phase, DeployPhase::Done);
}

#[test]
fn full_deployment_of_one_changed_and_one_clean_package() {
    // Target with packages A and B: A has one changed file, B none. The
    // run must create one remote temp file per package, upload only A's
    // archive, mark B "no changes", run A's extraction and cleanup, and
    // end with both packages done.
    let mut m = TargetDeploymentStateMachine::new(strings(&["A", "B"]));

    // Checksum phase: one remote temp file and one digest map per package.
    let digest_same = local_digest(b"unchanged contents");
    let map_a = ChecksumMap::new(
        strings(&["/main.bin"]),
        vec![Some("1111111111111111111111111111111111111111".to_string())],
    );
    let map_b = ChecksumMap::new(strings(&["/cfg"]), vec![Some(digest_same.clone())]);
    assert_eq!(m.next_action(), DeployAction::ChecksumPackage { package_index: 0 });
    m.apply(DeployEvent::ChecksumDone { temp_path: "/tmp/t.a".to_string(), checksums: map_a });
    assert_eq!(m.next_action(), DeployAction::ChecksumPackage { package_index: 1 });
    m.apply(DeployEvent::ChecksumDone { temp_path: "/tmp/t.b".to_string(), checksums: map_b });
    assert_eq!(m.temp_paths[0].as_deref(), Some("/tmp/t.a"));
    assert_eq!(m.temp_paths[1].as_deref(), Some("/tmp/t.b"));

    // Upload phase: the archiver selects A's changed file and nothing of B.
    assert_eq!(m.phase, DeployPhase::Upload);
    assert_eq!(m.next_action(), DeployAction::UploadPackage { package_index: 0 });
    let changed_a = PackageCreator::new(&m.checksums[0])
        .prepare_package_for_target(&vec![local_digest(b"new contents")]);
    assert_eq!(changed_a, strings(&["/main.bin"]));
    m.apply(DeployEvent::UploadDone);
    assert_eq!(m.next_action(), DeployAction::UploadPackage { package_index: 1 });
    let changed_b = PackageCreator::new(&m.checksums[1])
        .prepare_package_for_target(&vec![digest_same]);
    assert!(changed_b.is_empty());
    m.apply(DeployEvent::NoChanges);
    assert_eq!(m.uploaded, vec![true, false]);

    // Post-deploy phase: A's command sequence ends in extraction and
    // cleanup of its temp file.
    assert_eq!(m.phase, DeployPhase::PostDeploy);
    let runner = RemoteActionRunner::new(true);
    let package_a = DeployPackage {
        local_directory: "/src/a".to_string(),
        target_directory: "/opt/a".to_string(),
        pre_deploy_actions: None,
        post_deploy_actions: None,
    };
    let temp_a = m.temp_paths[0].clone().unwrap();
    let cmds = runner.command_sequence(&package_a, &temp_a);
    assert_eq!(
        cmds,
        strings(&["sudo tar -xzf '/tmp/t.a' --directory '/opt/a'", "sudo rm -f \"/tmp/t.a\""])
    );
    assert_eq!(m.next_action(), DeployAction::PostDeployPackage { package_index: 0 });
    m.apply(DeployEvent::PostDeployDone);
    assert_eq!(m.next_action(), DeployAction::PostDeployPackage { package_index: 1 });
    m.apply(DeployEvent::PostDeployDone);
    assert_eq!(m.phase, DeployPhase::Done);
    assert_eq!(m.next_action(), DeployAction::Done);
}

fn three_target_config() -> Config {
    let target = |name: &str, auth: Vec<(String, String)>| DeployTarget {
        name: Some(name.to_string()),
        host: "host".to_string(),
        port: 22,
        authentication: auth,
        packages: strings(&["web"]),
    };
    Config {
        use_sudo: None,
        targets: vec![
            target("ok-1", vec![("password".to_string(), "u:p".to_string())]),
            target("bad", vec![("password".to_string(), "missing-fields".to_string())]),
            target("ok-2", vec![("password".to_string(), "u:p".to_string())]),
        ],
        packages: vec![(
            "web".to_string(),
            DeployPackage {
                local_directory: "/src/web".to_string(),
                target_directory: "/opt/web".to_string(),
                pre_deploy_actions: None,
                post_deploy_actions: None,
            },
        )],
    }
}

#[test]
fn one_fatal_target_does_not_block_the_others() {
    // Three targets, one with unusable credentials: every other target
    // still reaches the terminal state.
    let config = three_target_config();
    let mut store = UIStore::new();
    let mut coordinator = DeploymentCoordinator::begin_deployment(&config, &mut store);
    assert_eq!(coordinator.target_count(), 3);
    coordinator.fail_target(1);
    coordinator.run_target_with_successes(0);
    coordinator.run_target_with_successes(2);
    assert_eq!(coordinator.machines[0].phase, DeployPhase::Done);
    assert_eq!(coordinator.machines[1].phase, DeployPhase::Failed);
    assert_eq!(coordinator.machines[2].phase, DeployPhase::Done);
}

#[test]
fn begin_deployment_registers_progress_slots() {
    let mut config = three_target_config();
    config.targets[1].name = None;
    let mut store = UIStore::new();
    let _ = DeploymentCoordinator::begin_deployment(&config, &mut store);
    let slot0 = store.deployment_targets.get(&0).unwrap();
    assert!(matches!(slot0.state, UITargetState::TARGET_START));
    assert_eq!(slot0.name, "ok-1");
    assert_eq!(slot0.upload_package, "none");
    assert_eq!(slot0.upload_pos, 0);
    let slot1 = store.deployment_targets.get(&1).unwrap();
    assert_eq!(slot1.name, "unnamed");
    assert!(store.deployment_targets.get(&3).is_none());
}
