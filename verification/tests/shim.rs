use init_shim::handoff::build_handoff_args;
use init_shim::handoff::log_target_flag;
use init_shim::mounts::activation_program_path;
use init_shim::mounts::child_locale_name;
use init_shim::mounts::child_locale_value;
use init_shim::mounts::log_device_path;
use init_shim::mounts::mount_op_of;
use init_shim::mounts::mount_source_of;
use init_shim::mounts::mount_target_of;
use init_shim::mounts::root_path;
use init_shim::mounts::service_manager_path;
use init_shim::mounts::shm_backing_path;
use init_shim::mounts::shm_path;
use init_shim::mounts::store_path;
use init_shim::mounts::MountOp;
use init_shim::outcome::activation_message;
use init_shim::outcome::check_activation_exit;
use init_shim::outcome::interpret_waitid_result;
use init_shim::outcome::ActivationError;
use init_shim::outcome::WaitFailure;
use init_shim::pipeline::action_of;
use init_shim::pipeline::context_message;
use init_shim::pipeline::event_fits_check;
use init_shim::pipeline::failure_of;
use init_shim::pipeline::initial_state;
use init_shim::pipeline::step;
use init_shim::pipeline::Action;
use init_shim::pipeline::Event;
use init_shim::pipeline::FsError;
use init_shim::pipeline::FsObjectKind;
use init_shim::pipeline::PipelineState;
use init_shim::pipeline::ShimError;
use init_shim::pipeline::Stage;

#[test]
fn waitid_ok_is_ok() {
    assert!(interpret_waitid_result(Ok(())).is_ok());
}

#[test]
fn waitid_echild_is_ok() {
    assert!(interpret_waitid_result(Err(WaitFailure::NoSuchChild)).is_ok());
}

#[test]
fn waitid_other_error_is_err() {
    assert!(interpret_waitid_result(Err(WaitFailure::Other(22))).is_err());
}

#[test]
fn activation_exit_zero_is_ok() {
    assert!(check_activation_exit(Some(0)).is_ok());
}

#[test]
fn activation_exit_nonzero_is_err() {
    assert!(check_activation_exit(Some(1)).is_err());
}

#[test]
fn activation_exit_none_is_err() {
    assert!(check_activation_exit(None).is_err());
}

#[test]
fn waitid_classification_exact_values() {
    assert_eq!(interpret_waitid_result(Ok(())), Ok(()));
    assert_eq!(interpret_waitid_result(Err(WaitFailure::NoSuchChild)), Ok(()));
    assert_eq!(
        interpret_waitid_result(Err(WaitFailure::Other(5))),
        Err(ActivationError::WaitError(5))
    );
    assert_eq!(
        interpret_waitid_result(Err(WaitFailure::Other(22))),
        Err(ActivationError::WaitError(22))
    );
}

#[test]
fn exit_classification_exact_values() {
    assert_eq!(check_activation_exit(Some(0)), Ok(()));
    assert_eq!(
        check_activation_exit(Some(17)),
        Err(ActivationError::NonzeroExit(17))
    );
    assert_eq!(
        check_activation_exit(Some(-1)),
        Err(ActivationError::NonzeroExit(-1))
    );
    assert_eq!(check_activation_exit(None), Err(ActivationError::Signaled));
}

/// Drive a state through a trace of events, checking that each event fits.
fn run_trace(start: PipelineState, events: &[Event]) -> PipelineState {
    let mut s = start;
    for e in events {
        assert!(event_fits_check(s, *e));
        s = step(s, *e);
    }
    s
}

#[test]
fn scenario_symlink_is_repaired_then_noop() {
    // A symlinked shared-memory path is repaired: unlink, recreate, move the
    // backing mount over, bind it back, and only then normalize mounts.
    let mut s = initial_state();
    assert_eq!(action_of(s), Some(Action::InspectShm));
    s = step(s, Event::Inspected(FsObjectKind::Symlink));
    assert_eq!(action_of(s), Some(Action::InspectShm));
    s = step(s, Event::Inspected(FsObjectKind::Symlink));
    assert_eq!(action_of(s), Some(Action::RemoveShmSymlink));
    s = step(s, Event::Succeeded);
    assert_eq!(action_of(s), Some(Action::CreateShmDir));
    s = step(s, Event::Succeeded);
    assert_eq!(action_of(s), Some(Action::MoveShmMount));
    s = step(s, Event::Succeeded);
    assert_eq!(action_of(s), Some(Action::BindShmBack));
    s = step(s, Event::Succeeded);
    assert_eq!(s, PipelineState::SharingRootMounts);

    // A second invocation finds a real directory and performs no removal: it
    // goes straight to the mount normalizer.
    let again = step(initial_state(), Event::Inspected(FsObjectKind::Directory));
    assert_eq!(again, PipelineState::SharingRootMounts);
    assert_eq!(action_of(again), Some(Action::ShareRootMounts));
}

#[test]
fn scenario_absent_and_other_are_left_alone() {
    let s = step(initial_state(), Event::Inspected(FsObjectKind::Absent));
    assert_eq!(s, PipelineState::SharingRootMounts);
    let s = step(initial_state(), Event::Inspected(FsObjectKind::Other));
    assert_eq!(s, PipelineState::SharingRootMounts);
}

#[test]
fn repair_removes_stale_directory_recursively() {
    // Inside the repair phase a leftover plain directory is removed
    // recursively, and a path with neither symlink nor directory needs no
    // removal at all.
    let s = run_trace(
        initial_state(),
        &[
            Event::Inspected(FsObjectKind::Symlink),
            Event::Inspected(FsObjectKind::Directory),
        ],
    );
    assert_eq!(action_of(s), Some(Action::RemoveShmDir));

    let s = run_trace(
        initial_state(),
        &[
            Event::Inspected(FsObjectKind::Symlink),
            Event::Inspected(FsObjectKind::Absent),
        ],
    );
    assert_eq!(action_of(s), Some(Action::CreateShmDir));
}

/// The events that drive an already-correct filesystem up to the direct wait.
fn events_to_wait() -> Vec<Event> {
    vec![
        Event::Inspected(FsObjectKind::Directory),
        Event::Succeeded, // root propagation shared
        Event::Succeeded, // store bound
        Event::Succeeded, // store remounted read-only
        Event::Succeeded, // log device opened
        Event::Succeeded, // log descriptor duplicated
        Event::Succeeded, // activation spawned
    ]
}

#[test]
fn scenario_exit_zero_proceeds_to_handoff() {
    let s = run_trace(initial_state(), &events_to_wait());
    assert_eq!(s, PipelineState::AwaitingChild);
    assert_eq!(action_of(s), Some(Action::WaitForChild));
    let s = step(s, Event::ChildStatus(Some(0)));
    assert_eq!(s, PipelineState::HandingOff);
    assert_eq!(action_of(s), Some(Action::ExecHandoff));
}

#[test]
fn scenario_exit_seventeen_aborts_without_handoff() {
    let s = run_trace(initial_state(), &events_to_wait());
    let s = step(s, Event::ChildStatus(Some(17)));
    assert_eq!(
        s,
        PipelineState::Failed(ShimError::Activation(ActivationError::NonzeroExit(17)))
    );
    // Terminal: the handoff is never owed.
    assert_eq!(action_of(s), None);
    assert_eq!(
        failure_of(s),
        Some(ShimError::Activation(ActivationError::NonzeroExit(17)))
    );
}

#[test]
fn scenario_signaled_child_aborts() {
    let s = run_trace(initial_state(), &events_to_wait());
    let s = step(s, Event::ChildStatus(None));
    assert_eq!(
        s,
        PipelineState::Failed(ShimError::Activation(ActivationError::Signaled))
    );
    assert_eq!(action_of(s), None);
}

#[test]
fn scenario_self_reaping_child_is_success() {
    // The child reaped itself via its own signal handling: the direct wait
    // fails, the fallback wait reports "no such child", and that is success.
    let s = run_trace(initial_state(), &events_to_wait());
    let s = step(s, Event::DirectWaitFailed);
    assert_eq!(s, PipelineState::AwaitingFallback);
    assert_eq!(action_of(s), Some(Action::FallbackWait));
    let s = step(s, Event::FallbackFailed(WaitFailure::NoSuchChild));
    assert_eq!(s, PipelineState::HandingOff);
}

#[test]
fn fallback_success_and_other_error() {
    let at_fallback = run_trace(
        initial_state(),
        &{
            let mut v = events_to_wait();
            v.push(Event::DirectWaitFailed);
            v
        },
    );
    let s = step(at_fallback, Event::FallbackSucceeded);
    assert_eq!(s, PipelineState::HandingOff);

    let s = step(at_fallback, Event::FallbackFailed(WaitFailure::Other(4)));
    assert_eq!(
        s,
        PipelineState::Failed(ShimError::Activation(ActivationError::WaitError(4)))
    );
    assert_eq!(action_of(s), None);
}

#[test]
fn scenario_missing_handoff_target_is_fatal() {
    let mut events = events_to_wait();
    events.push(Event::ChildStatus(Some(0)));
    let s = run_trace(initial_state(), &events);
    assert_eq!(s, PipelineState::HandingOff);
    // The exec only ever reports failure; a missing target comes back as an
    // OS error and the pipeline ends failed, never ambiguous.
    let s = step(s, Event::OpFailed(2));
    assert_eq!(
        s,
        PipelineState::Failed(ShimError::Fs(FsError {
            stage: Stage::ExecHandoff,
            errno: 2,
        }))
    );
    assert_eq!(action_of(s), None);
    assert!(failure_of(s).is_some());
}

#[test]
fn store_is_bound_before_remounting_readonly() {
    let s = run_trace(
        initial_state(),
        &[Event::Inspected(FsObjectKind::Directory), Event::Succeeded],
    );
    assert_eq!(s, PipelineState::BindingStore);
    assert_eq!(action_of(s), Some(Action::BindStore));
    let s = step(s, Event::Succeeded);
    assert_eq!(s, PipelineState::RemountingStoreReadonly);
    assert_eq!(action_of(s), Some(Action::RemountStoreReadonly));
}

#[test]
fn failures_are_tagged_with_their_stage() {
    let cases: Vec<(Vec<Event>, Stage)> = vec![
        (vec![], Stage::CheckShm),
        (
            vec![
                Event::Inspected(FsObjectKind::Symlink),
                Event::Inspected(FsObjectKind::Symlink),
            ],
            Stage::RemoveShmSymlink,
        ),
        (
            vec![
                Event::Inspected(FsObjectKind::Symlink),
                Event::Inspected(FsObjectKind::Directory),
            ],
            Stage::RemoveShmDir,
        ),
        (
            vec![
                Event::Inspected(FsObjectKind::Symlink),
                Event::Inspected(FsObjectKind::Symlink),
                Event::Succeeded,
            ],
            Stage::CreateShmDir,
        ),
        (
            vec![
                Event::Inspected(FsObjectKind::Symlink),
                Event::Inspected(FsObjectKind::Symlink),
                Event::Succeeded,
                Event::Succeeded,
            ],
            Stage::MoveShmMount,
        ),
        (
            vec![
                Event::Inspected(FsObjectKind::Symlink),
                Event::Inspected(FsObjectKind::Symlink),
                Event::Succeeded,
                Event::Succeeded,
                Event::Succeeded,
            ],
            Stage::BindShmBack,
        ),
        (vec![Event::Inspected(FsObjectKind::Directory)], Stage::ShareRootMounts),
        (
            vec![Event::Inspected(FsObjectKind::Directory), Event::Succeeded],
            Stage::BindStore,
        ),
        (
            vec![
                Event::Inspected(FsObjectKind::Directory),
                Event::Succeeded,
                Event::Succeeded,
            ],
            Stage::RemountStoreReadonly,
        ),
        (
            vec![
                Event::Inspected(FsObjectKind::Directory),
                Event::Succeeded,
                Event::Succeeded,
                Event::Succeeded,
            ],
            Stage::OpenLogDevice,
        ),
        (
            vec![
                Event::Inspected(FsObjectKind::Directory),
                Event::Succeeded,
                Event::Succeeded,
                Event::Succeeded,
                Event::Succeeded,
            ],
            Stage::DupLogDevice,
        ),
        (
            vec![
                Event::Inspected(FsObjectKind::Directory),
                Event::Succeeded,
                Event::Succeeded,
                Event::Succeeded,
                Event::Succeeded,
                Event::Succeeded,
            ],
            Stage::SpawnActivation,
        ),
    ];
    for (events, stage) in cases {
        let s = run_trace(initial_state(), &events);
        let s = step(s, Event::OpFailed(13));
        assert_eq!(
            s,
            PipelineState::Failed(ShimError::Fs(FsError { stage, errno: 13 }))
        );
    }
}

#[test]
fn failed_state_accepts_no_event() {
    let failed = step(initial_state(), Event::OpFailed(5));
    assert_eq!(action_of(failed), None);
    assert!(!event_fits_check(failed, Event::Succeeded));
    assert!(!event_fits_check(failed, Event::OpFailed(1)));
}

#[test]
fn event_fit_is_per_state() {
    let s = initial_state();
    assert!(event_fits_check(s, Event::Inspected(FsObjectKind::Symlink)));
    assert!(event_fits_check(s, Event::OpFailed(1)));
    assert!(!event_fits_check(s, Event::Succeeded));
    assert!(!event_fits_check(s, Event::ChildStatus(Some(0))));

    let reinspect = step(s, Event::Inspected(FsObjectKind::Symlink));
    assert!(event_fits_check(reinspect, Event::Inspected(FsObjectKind::Absent)));
    assert!(!event_fits_check(reinspect, Event::OpFailed(1)));

    let waiting = run_trace(initial_state(), &events_to_wait());
    assert!(event_fits_check(waiting, Event::ChildStatus(None)));
    assert!(event_fits_check(waiting, Event::DirectWaitFailed));
    assert!(!event_fits_check(waiting, Event::FallbackSucceeded));
}

#[test]
fn mount_actions_name_their_calls_and_paths() {
    assert_eq!(mount_op_of(Action::MoveShmMount), Some(MountOp::Move));
    assert_eq!(mount_source_of(Action::MoveShmMount), Some("/run/shm"));
    assert_eq!(mount_target_of(Action::MoveShmMount), Some("/dev/shm"));

    assert_eq!(mount_op_of(Action::BindShmBack), Some(MountOp::Bind));
    assert_eq!(mount_source_of(Action::BindShmBack), Some("/dev/shm"));
    assert_eq!(mount_target_of(Action::BindShmBack), Some("/run/shm"));

    assert_eq!(mount_op_of(Action::ShareRootMounts), Some(MountOp::RecursiveShared));
    assert_eq!(mount_source_of(Action::ShareRootMounts), None);
    assert_eq!(mount_target_of(Action::ShareRootMounts), Some("/"));

    assert_eq!(mount_op_of(Action::BindStore), Some(MountOp::Bind));
    assert_eq!(mount_source_of(Action::BindStore), Some("/nix/store"));
    assert_eq!(mount_target_of(Action::BindStore), Some("/nix/store"));

    assert_eq!(
        mount_op_of(Action::RemountStoreReadonly),
        Some(MountOp::BindRemountReadonly)
    );
    assert_eq!(mount_source_of(Action::RemountStoreReadonly), Some("/nix/store"));
    assert_eq!(mount_target_of(Action::RemountStoreReadonly), Some("/nix/store"));

    assert_eq!(mount_op_of(Action::InspectShm), None);
    assert_eq!(mount_op_of(Action::WaitForChild), None);
    assert_eq!(mount_op_of(Action::ExecHandoff), None);
    assert_eq!(mount_source_of(Action::ExecHandoff), None);
    assert_eq!(mount_target_of(Action::ExecHandoff), None);
}

#[test]
fn fixed_paths() {
    assert_eq!(shm_path(), "/dev/shm");
    assert_eq!(shm_backing_path(), "/run/shm");
    assert_eq!(store_path(), "/nix/store");
    assert_eq!(root_path(), "/");
    assert_eq!(log_device_path(), "/dev/kmsg");
    assert_eq!(activation_program_path(), "/nix/var/nix/profiles/system/activate");
    assert_eq!(
        service_manager_path(),
        "/nix/var/nix/profiles/system/systemd/lib/systemd/systemd"
    );
    assert_eq!(child_locale_name(), "LANG");
    assert_eq!(child_locale_value(), "C.UTF-8");
}

#[test]
fn handoff_args_inject_flag_before_forwarded_args() {
    let argv = vec![
        "shim".to_string(),
        "--unit=multi-user.target".to_string(),
        "extra".to_string(),
    ];
    let args = build_handoff_args(&argv);
    assert_eq!(
        args,
        vec![
            "--log-target=kmsg".to_string(),
            "--unit=multi-user.target".to_string(),
            "extra".to_string(),
        ]
    );
}

#[test]
fn handoff_args_with_no_forwarded_args() {
    let argv = vec!["shim".to_string()];
    assert_eq!(build_handoff_args(&argv), vec![log_target_flag().to_string()]);
}

#[test]
fn context_messages_match_each_stage() {
    assert_eq!(context_message(Stage::CheckShm), "When checking /dev/shm");
    assert_eq!(
        context_message(Stage::RemoveShmSymlink),
        "When removing /dev/shm symlink"
    );
    assert_eq!(context_message(Stage::RemoveShmDir), "When removing old /dev/shm");
    assert_eq!(context_message(Stage::CreateShmDir), "When creating new /dev/shm");
    assert_eq!(context_message(Stage::MoveShmMount), "When relocating /dev/shm");
    assert_eq!(
        context_message(Stage::BindShmBack),
        "When bind mounting /run/shm to /dev/shm"
    );
    assert_eq!(context_message(Stage::ShareRootMounts), "When remounting /");
    assert_eq!(context_message(Stage::BindStore), "When bind mounting /nix/store");
    assert_eq!(
        context_message(Stage::RemountStoreReadonly),
        "When remounting /nix/store read-only"
    );
    assert_eq!(context_message(Stage::OpenLogDevice), "When opening /dev/kmsg");
    assert_eq!(
        context_message(Stage::DupLogDevice),
        "When duplicating /dev/kmsg fd"
    );
    assert_eq!(context_message(Stage::SpawnActivation), "When activating");
    assert_eq!(
        context_message(Stage::ExecHandoff),
        "When handing off to the service manager"
    );
}

#[test]
fn activation_messages() {
    assert_eq!(
        activation_message(ActivationError::NonzeroExit(17)),
        "Activation exited with status"
    );
    assert_eq!(
        activation_message(ActivationError::Signaled),
        "Activation terminated by signal"
    );
    assert_eq!(activation_message(ActivationError::WaitError(5)), "When waiting");
}
