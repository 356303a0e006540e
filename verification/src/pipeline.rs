//! The shim's pipeline as a state machine.
//!
//! The shim is a single linear pipeline: repair a symlinked shared-memory
//! path, mark root mount propagation shared, bind the package store
//! read-only, supervise the activation program, and exec the service
//! manager. Each state owes exactly one kernel operation; an unverified
//! driver performs it and reports the result as an [`Event`], and [`step`]
//! decides the next state. Every decision the shim makes — what to remove,
//! what order the mounts happen in, when a wait failure is benign, and when
//! the whole boot must abort — is pinned here.

use vstd::prelude::*;

use crate::outcome::ActivationError;
use crate::outcome::WaitFailure;
use crate::outcome::spec_check_activation_exit;
use crate::outcome::spec_interpret_waitid_result;

verus! {

/// The kind of filesystem object observed at a path, by metadata that does
/// not follow a final symlink: a symlink to a directory is still a symlink.
#[derive(Clone, Copy, Debug, PartialEq, Eq, Structural)]
pub enum FsObjectKind {
    /// Nothing exists at the path.
    Absent,
    /// A symbolic link (wherever it points, and whether or not it dangles).
    Symlink,
    /// A real directory.
    Directory,
    /// Any other object (regular file, device node, socket, ...).
    Other,
}

/// The sub-step an OS failure is tagged with.
#[derive(Clone, Copy, Debug, PartialEq, Eq, Structural)]
pub enum Stage {
    /// Inspecting the shared-memory path.
    CheckShm,
    /// Removing the shared-memory symlink.
    RemoveShmSymlink,
    /// Recursively removing a stale shared-memory directory.
    RemoveShmDir,
    /// Creating the new shared-memory directory.
    CreateShmDir,
    /// Moving the backing mount onto the new directory.
    MoveShmMount,
    /// Bind-mounting the repaired directory back over the backing path.
    BindShmBack,
    /// Marking the root mount and submounts shared.
    ShareRootMounts,
    /// Bind-mounting the package store onto itself.
    BindStore,
    /// Remounting the store bind read-only.
    RemountStoreReadonly,
    /// Opening the kernel log device.
    OpenLogDevice,
    /// Duplicating the log descriptor for a second stream.
    DupLogDevice,
    /// Spawning the activation program.
    SpawnActivation,
    /// Replacing the process image with the service manager.
    ExecHandoff,
}

/// A failed filesystem or process operation: which sub-step failed, and the
/// raw OS errno it failed with.
#[derive(Clone, Copy, Debug, PartialEq, Eq, Structural)]
pub struct FsError {
    pub stage: Stage,
    pub errno: i32,
}

/// Any fatal outcome of the pipeline.
#[derive(Clone, Copy, Debug, PartialEq, Eq, Structural)]
pub enum ShimError {
    /// A filesystem or process operation failed.
    Fs(FsError),
    /// The activation program failed, or waiting for it did.
    Activation(ActivationError),
}

/// The kernel operation a state owes. The driver performs it and reports an
/// [`Event`].
#[derive(Clone, Copy, Debug, PartialEq, Eq, Structural)]
pub enum Action {
    /// Inspect the shared-memory path without following a final symlink.
    InspectShm,
    /// Unlink the shared-memory symlink.
    RemoveShmSymlink,
    /// Recursively remove the stale shared-memory directory.
    RemoveShmDir,
    /// Create the shared-memory path as an empty directory.
    CreateShmDir,
    /// Move the backing mount onto the shared-memory directory.
    MoveShmMount,
    /// Bind-mount the shared-memory directory back over the backing path.
    BindShmBack,
    /// Recursively mark the root mount shared-propagation.
    ShareRootMounts,
    /// Bind-mount the package store onto itself.
    BindStore,
    /// Remount the store bind read-only.
    RemountStoreReadonly,
    /// Open the kernel log device for writing.
    OpenLogDevice,
    /// Duplicate the log descriptor, so the child's two output streams close
    /// independent descriptors.
    DupLogDevice,
    /// Spawn the activation program with both output streams on the log
    /// device and a fixed UTF-8 locale in its environment.
    SpawnActivation,
    /// Block on the direct wait for the activation child.
    WaitForChild,
    /// Block on the fallback wait primitive.
    FallbackWait,
    /// Replace the process image with the service manager.
    ExecHandoff,
}

/// What the driver observed when it performed a state's action.
#[derive(Clone, Copy, Debug, PartialEq, Eq, Structural)]
pub enum Event {
    /// An inspection succeeded and found this kind of object.
    Inspected(FsObjectKind),
    /// The operation succeeded.
    Succeeded,
    /// The operation failed with this raw errno. For the handoff exec this is
    /// the only possible event: a successful exec never comes back.
    OpFailed(i32),
    /// The direct wait succeeded: the child's exit code, or none if it was
    /// terminated by a signal.
    ChildStatus(Option<i32>),
    /// The direct wait failed, whatever the reason: fall back.
    DirectWaitFailed,
    /// The fallback wait succeeded.
    FallbackSucceeded,
    /// The fallback wait failed.
    FallbackFailed(WaitFailure),
}

/// The pipeline's states. Each non-failed state owes one action; `Failed` is
/// terminal. There is no success state: a run that reaches the handoff and
/// whose exec succeeds never returns to the driver.
#[derive(Clone, Copy, Debug, PartialEq, Eq, Structural)]
pub enum PipelineState {
    /// About to inspect the shared-memory path to decide whether to repair.
    CheckingShm,
    /// Repair begins: re-inspect to pick the removal step, since filesystem
    /// state is re-observed at every decision point rather than cached.
    ReinspectingShm,
    /// Removing the shared-memory symlink.
    RemovingShmSymlink,
    /// Removing a stale shared-memory directory left by a partial run.
    RemovingShmDir,
    /// Creating the new shared-memory directory.
    CreatingShmDir,
    /// Moving the backing mount onto it.
    MovingShmMount,
    /// Bind-mounting it back over the backing path.
    BindingShmBack,
    /// Marking root propagation shared.
    SharingRootMounts,
    /// Bind-mounting the store onto itself.
    BindingStore,
    /// Remounting the store bind read-only.
    RemountingStoreReadonly,
    /// Opening the kernel log device for the child's output.
    OpeningLogDevice,
    /// Duplicating the log descriptor.
    DuplicatingLogDevice,
    /// Spawning the activation program.
    SpawningActivation,
    /// Blocking on the direct wait.
    AwaitingChild,
    /// Blocking on the fallback wait after the direct wait failed.
    AwaitingFallback,
    /// Activation succeeded: exec the service manager.
    HandingOff,
    /// The pipeline aborted with this error. Terminal: no further action.
    Failed(ShimError),
}

/// The failed state for an OS failure at the given sub-step.
pub open spec fn spec_fail_at(stage: Stage, errno: i32) -> PipelineState {
    PipelineState::Failed(ShimError::Fs(FsError { stage, errno }))
}

/// Which events can be the result of a state's own action. The driver only
/// ever reports the result of the action the state owes, so [`step`] is
/// specified on exactly these pairs.
pub open spec fn event_fits(s: PipelineState, e: Event) -> bool {
    match s {
        PipelineState::CheckingShm => e is Inspected || e is OpFailed,
        PipelineState::ReinspectingShm => e is Inspected,
        PipelineState::RemovingShmSymlink => e is Succeeded || e is OpFailed,
        PipelineState::RemovingShmDir => e is Succeeded || e is OpFailed,
        PipelineState::CreatingShmDir => e is Succeeded || e is OpFailed,
        PipelineState::MovingShmMount => e is Succeeded || e is OpFailed,
        PipelineState::BindingShmBack => e is Succeeded || e is OpFailed,
        PipelineState::SharingRootMounts => e is Succeeded || e is OpFailed,
        PipelineState::BindingStore => e is Succeeded || e is OpFailed,
        PipelineState::RemountingStoreReadonly => e is Succeeded || e is OpFailed,
        PipelineState::OpeningLogDevice => e is Succeeded || e is OpFailed,
        PipelineState::DuplicatingLogDevice => e is Succeeded || e is OpFailed,
        PipelineState::SpawningActivation => e is Succeeded || e is OpFailed,
        PipelineState::AwaitingChild => e is ChildStatus || e is DirectWaitFailed,
        PipelineState::AwaitingFallback => e is FallbackSucceeded || e is FallbackFailed,
        PipelineState::HandingOff => e is OpFailed,
        PipelineState::Failed(_) => false,
    }
}

/// The transition function: for a state and the result of its action, the
/// next state. This is the whole decision table of the shim.
pub open spec fn spec_step(s: PipelineState, e: Event) -> PipelineState {
    match (s, e) {
        // Repair only a symlink; anything else is left as it is.
        (PipelineState::CheckingShm, Event::Inspected(k)) => if k is Symlink {
            PipelineState::ReinspectingShm
        } else {
            PipelineState::SharingRootMounts
        },
        (PipelineState::CheckingShm, Event::OpFailed(errno)) => spec_fail_at(
            Stage::CheckShm,
            errno,
        ),
        // Pick the removal step from a fresh observation: a symlink is
        // unlinked, a directory left by a partial run is removed recursively,
        // anything else needs no removal.
        (PipelineState::ReinspectingShm, Event::Inspected(k)) => match k {
            FsObjectKind::Symlink => PipelineState::RemovingShmSymlink,
            FsObjectKind::Directory => PipelineState::RemovingShmDir,
            _ => PipelineState::CreatingShmDir,
        },
        (PipelineState::RemovingShmSymlink, Event::Succeeded) => PipelineState::CreatingShmDir,
        (PipelineState::RemovingShmSymlink, Event::OpFailed(errno)) => spec_fail_at(
            Stage::RemoveShmSymlink,
            errno,
        ),
        (PipelineState::RemovingShmDir, Event::Succeeded) => PipelineState::CreatingShmDir,
        (PipelineState::RemovingShmDir, Event::OpFailed(errno)) => spec_fail_at(
            Stage::RemoveShmDir,
            errno,
        ),
        (PipelineState::CreatingShmDir, Event::Succeeded) => PipelineState::MovingShmMount,
        (PipelineState::CreatingShmDir, Event::OpFailed(errno)) => spec_fail_at(
            Stage::CreateShmDir,
            errno,
        ),
        (PipelineState::MovingShmMount, Event::Succeeded) => PipelineState::BindingShmBack,
        (PipelineState::MovingShmMount, Event::OpFailed(errno)) => spec_fail_at(
            Stage::MoveShmMount,
            errno,
        ),
        (PipelineState::BindingShmBack, Event::Succeeded) => PipelineState::SharingRootMounts,
        (PipelineState::BindingShmBack, Event::OpFailed(errno)) => spec_fail_at(
            Stage::BindShmBack,
            errno,
        ),
        (PipelineState::SharingRootMounts, Event::Succeeded) => PipelineState::BindingStore,
        (PipelineState::SharingRootMounts, Event::OpFailed(errno)) => spec_fail_at(
            Stage::ShareRootMounts,
            errno,
        ),
        // The store bind and its read-only remount are two operations in a
        // fixed order: the kernel cannot combine them, and a bind whose
        // read-only remount failed is fatal, never left writable.
        (PipelineState::BindingStore, Event::Succeeded) => PipelineState::RemountingStoreReadonly,
        (PipelineState::BindingStore, Event::OpFailed(errno)) => spec_fail_at(
            Stage::BindStore,
            errno,
        ),
        (PipelineState::RemountingStoreReadonly, Event::Succeeded) => PipelineState::OpeningLogDevice,
        (PipelineState::RemountingStoreReadonly, Event::OpFailed(errno)) => spec_fail_at(
            Stage::RemountStoreReadonly,
            errno,
        ),
        (PipelineState::OpeningLogDevice, Event::Succeeded) => PipelineState::DuplicatingLogDevice,
        (PipelineState::OpeningLogDevice, Event::OpFailed(errno)) => spec_fail_at(
            Stage::OpenLogDevice,
            errno,
        ),
        (PipelineState::DuplicatingLogDevice, Event::Succeeded) => PipelineState::SpawningActivation,
        (PipelineState::DuplicatingLogDevice, Event::OpFailed(errno)) => spec_fail_at(
            Stage::DupLogDevice,
            errno,
        ),
        (PipelineState::SpawningActivation, Event::Succeeded) => PipelineState::AwaitingChild,
        (PipelineState::SpawningActivation, Event::OpFailed(errno)) => spec_fail_at(
            Stage::SpawnActivation,
            errno,
        ),
        // Direct wait succeeded: classify the exit status.
        (PipelineState::AwaitingChild, Event::ChildStatus(code)) => match spec_check_activation_exit(
            code,
        ) {
            Ok(_) => PipelineState::HandingOff,
            Err(err) => PipelineState::Failed(ShimError::Activation(err)),
        },
        // Direct wait failed, whatever the reason: fall back.
        (PipelineState::AwaitingChild, Event::DirectWaitFailed) => PipelineState::AwaitingFallback,
        (PipelineState::AwaitingFallback, Event::FallbackSucceeded) => PipelineState::HandingOff,
        (PipelineState::AwaitingFallback, Event::FallbackFailed(w)) => match spec_interpret_waitid_result(
            Err(w),
        ) {
            Ok(_) => PipelineState::HandingOff,
            Err(err) => PipelineState::Failed(ShimError::Activation(err)),
        },
        // Exec only reports back on failure.
        (PipelineState::HandingOff, Event::OpFailed(errno)) => spec_fail_at(
            Stage::ExecHandoff,
            errno,
        ),
        _ => s,
    }
}

/// The action a state owes, if any.
pub open spec fn spec_action_of(s: PipelineState) -> Option<Action> {
    match s {
        PipelineState::CheckingShm => Some(Action::InspectShm),
        PipelineState::ReinspectingShm => Some(Action::InspectShm),
        PipelineState::RemovingShmSymlink => Some(Action::RemoveShmSymlink),
        PipelineState::RemovingShmDir => Some(Action::RemoveShmDir),
        PipelineState::CreatingShmDir => Some(Action::CreateShmDir),
        PipelineState::MovingShmMount => Some(Action::MoveShmMount),
        PipelineState::BindingShmBack => Some(Action::BindShmBack),
        PipelineState::SharingRootMounts => Some(Action::ShareRootMounts),
        PipelineState::BindingStore => Some(Action::BindStore),
        PipelineState::RemountingStoreReadonly => Some(Action::RemountStoreReadonly),
        PipelineState::OpeningLogDevice => Some(Action::OpenLogDevice),
        PipelineState::DuplicatingLogDevice => Some(Action::DupLogDevice),
        PipelineState::SpawningActivation => Some(Action::SpawnActivation),
        PipelineState::AwaitingChild => Some(Action::WaitForChild),
        PipelineState::AwaitingFallback => Some(Action::FallbackWait),
        PipelineState::HandingOff => Some(Action::ExecHandoff),
        PipelineState::Failed(_) => None,
    }
}

/// The state every run starts in.
pub fn initial_state() -> (r: PipelineState)
    ensures
        r == PipelineState::CheckingShm,
{
    PipelineState::CheckingShm
}

/// The action the driver must perform next, or `None` once the pipeline has
/// failed.
pub fn action_of(s: PipelineState) -> (r: Option<Action>)
    ensures
        r == spec_action_of(s),
{
    match s {
        PipelineState::CheckingShm => Some(Action::InspectShm),
        PipelineState::ReinspectingShm => Some(Action::InspectShm),
        PipelineState::RemovingShmSymlink => Some(Action::RemoveShmSymlink),
        PipelineState::RemovingShmDir => Some(Action::RemoveShmDir),
        PipelineState::CreatingShmDir => Some(Action::CreateShmDir),
        PipelineState::MovingShmMount => Some(Action::MoveShmMount),
        PipelineState::BindingShmBack => Some(Action::BindShmBack),
        PipelineState::SharingRootMounts => Some(Action::ShareRootMounts),
        PipelineState::BindingStore => Some(Action::BindStore),
        PipelineState::RemountingStoreReadonly => Some(Action::RemountStoreReadonly),
        PipelineState::OpeningLogDevice => Some(Action::OpenLogDevice),
        PipelineState::DuplicatingLogDevice => Some(Action::DupLogDevice),
        PipelineState::SpawningActivation => Some(Action::SpawnActivation),
        PipelineState::AwaitingChild => Some(Action::WaitForChild),
        PipelineState::AwaitingFallback => Some(Action::FallbackWait),
        PipelineState::HandingOff => Some(Action::ExecHandoff),
        PipelineState::Failed(_) => None,
    }
}

/// Whether an event can be the result of the given state's action, so a
/// driver can check before stepping.
pub fn event_fits_check(s: PipelineState, e: Event) -> (r: bool)
    ensures
        r == event_fits(s, e),
{
    match s {
        PipelineState::CheckingShm => matches!(e, Event::Inspected(_) | Event::OpFailed(_)),
        PipelineState::ReinspectingShm => matches!(e, Event::Inspected(_)),
        PipelineState::AwaitingChild => matches!(
            e,
            Event::ChildStatus(_) | Event::DirectWaitFailed
        ),
        PipelineState::AwaitingFallback => matches!(
            e,
            Event::FallbackSucceeded | Event::FallbackFailed(_)
        ),
        PipelineState::HandingOff => matches!(e, Event::OpFailed(_)),
        PipelineState::Failed(_) => false,
        _ => matches!(e, Event::Succeeded | Event::OpFailed(_)),
    }
}

/// Advance the pipeline by one observed event.
pub fn step(s: PipelineState, e: Event) -> (r: PipelineState)
    requires
        event_fits(s, e),
    ensures
        r == spec_step(s, e),
{
    match (s, e) {
        (PipelineState::CheckingShm, Event::Inspected(FsObjectKind::Symlink)) => {
            PipelineState::ReinspectingShm
        },
        (PipelineState::CheckingShm, Event::Inspected(_)) => PipelineState::SharingRootMounts,
        (PipelineState::CheckingShm, Event::OpFailed(errno)) => fail_at(Stage::CheckShm, errno),
        (PipelineState::ReinspectingShm, Event::Inspected(k)) => match k {
            FsObjectKind::Symlink => PipelineState::RemovingShmSymlink,
            FsObjectKind::Directory => PipelineState::RemovingShmDir,
            _ => PipelineState::CreatingShmDir,
        },
        (PipelineState::RemovingShmSymlink, Event::Succeeded) => PipelineState::CreatingShmDir,
        (PipelineState::RemovingShmSymlink, Event::OpFailed(errno)) => fail_at(
            Stage::RemoveShmSymlink,
            errno,
        ),
        (PipelineState::RemovingShmDir, Event::Succeeded) => PipelineState::CreatingShmDir,
        (PipelineState::RemovingShmDir, Event::OpFailed(errno)) => fail_at(
            Stage::RemoveShmDir,
            errno,
        ),
        (PipelineState::CreatingShmDir, Event::Succeeded) => PipelineState::MovingShmMount,
        (PipelineState::CreatingShmDir, Event::OpFailed(errno)) => fail_at(
            Stage::CreateShmDir,
            errno,
        ),
        (PipelineState::MovingShmMount, Event::Succeeded) => PipelineState::BindingShmBack,
        (PipelineState::MovingShmMount, Event::OpFailed(errno)) => fail_at(
            Stage::MoveShmMount,
            errno,
        ),
        (PipelineState::BindingShmBack, Event::Succeeded) => PipelineState::SharingRootMounts,
        (PipelineState::BindingShmBack, Event::OpFailed(errno)) => fail_at(
            Stage::BindShmBack,
            errno,
        ),
        (PipelineState::SharingRootMounts, Event::Succeeded) => PipelineState::BindingStore,
        (PipelineState::SharingRootMounts, Event::OpFailed(errno)) => fail_at(
            Stage::ShareRootMounts,
            errno,
        ),
        (PipelineState::BindingStore, Event::Succeeded) => PipelineState::RemountingStoreReadonly,
        (PipelineState::BindingStore, Event::OpFailed(errno)) => fail_at(Stage::BindStore, errno),
        (PipelineState::RemountingStoreReadonly, Event::Succeeded) => {
            PipelineState::OpeningLogDevice
        },
        (PipelineState::RemountingStoreReadonly, Event::OpFailed(errno)) => fail_at(
            Stage::RemountStoreReadonly,
            errno,
        ),
        (PipelineState::OpeningLogDevice, Event::Succeeded) => PipelineState::DuplicatingLogDevice,
        (PipelineState::OpeningLogDevice, Event::OpFailed(errno)) => fail_at(
            Stage::OpenLogDevice,
            errno,
        ),
        (PipelineState::DuplicatingLogDevice, Event::Succeeded) => {
            PipelineState::SpawningActivation
        },
        (PipelineState::DuplicatingLogDevice, Event::OpFailed(errno)) => fail_at(
            Stage::DupLogDevice,
            errno,
        ),
        (PipelineState::SpawningActivation, Event::Succeeded) => PipelineState::AwaitingChild,
        (PipelineState::SpawningActivation, Event::OpFailed(errno)) => fail_at(
            Stage::SpawnActivation,
            errno,
        ),
        (PipelineState::AwaitingChild, Event::ChildStatus(code)) => {
            match crate::outcome::check_activation_exit(code) {
                Ok(_) => PipelineState::HandingOff,
                Err(err) => PipelineState::Failed(ShimError::Activation(err)),
            }
        },
        (PipelineState::AwaitingChild, Event::DirectWaitFailed) => PipelineState::AwaitingFallback,
        (PipelineState::AwaitingFallback, Event::FallbackSucceeded) => PipelineState::HandingOff,
        (PipelineState::AwaitingFallback, Event::FallbackFailed(w)) => {
            match crate::outcome::interpret_waitid_result(Err(w)) {
                Ok(_) => PipelineState::HandingOff,
                Err(err) => PipelineState::Failed(ShimError::Activation(err)),
            }
        },
        (PipelineState::HandingOff, Event::OpFailed(errno)) => fail_at(Stage::ExecHandoff, errno),
        (other, _) => other,
    }
}

/// The failed state for an OS failure at the given sub-step.
pub fn fail_at(stage: Stage, errno: i32) -> (r: PipelineState)
    ensures
        r == spec_fail_at(stage, errno),
{
    PipelineState::Failed(ShimError::Fs(FsError { stage, errno }))
}

/// The context string an OS failure at each sub-step is reported with.
pub fn context_message(stage: Stage) -> (r: &'static str)
    ensures
        stage is CheckShm ==> r@ == "When checking /dev/shm"@,
        stage is RemoveShmSymlink ==> r@ == "When removing /dev/shm symlink"@,
        stage is RemoveShmDir ==> r@ == "When removing old /dev/shm"@,
        stage is CreateShmDir ==> r@ == "When creating new /dev/shm"@,
        stage is MoveShmMount ==> r@ == "When relocating /dev/shm"@,
        stage is BindShmBack ==> r@ == "When bind mounting /run/shm to /dev/shm"@,
        stage is ShareRootMounts ==> r@ == "When remounting /"@,
        stage is BindStore ==> r@ == "When bind mounting /nix/store"@,
        stage is RemountStoreReadonly ==> r@ == "When remounting /nix/store read-only"@,
        stage is OpenLogDevice ==> r@ == "When opening /dev/kmsg"@,
        stage is DupLogDevice ==> r@ == "When duplicating /dev/kmsg fd"@,
        stage is SpawnActivation ==> r@ == "When activating"@,
        stage is ExecHandoff ==> r@ == "When handing off to the service manager"@,
{
    match stage {
        Stage::CheckShm => "When checking /dev/shm",
        Stage::RemoveShmSymlink => "When removing /dev/shm symlink",
        Stage::RemoveShmDir => "When removing old /dev/shm",
        Stage::CreateShmDir => "When creating new /dev/shm",
        Stage::MoveShmMount => "When relocating /dev/shm",
        Stage::BindShmBack => "When bind mounting /run/shm to /dev/shm",
        Stage::ShareRootMounts => "When remounting /",
        Stage::BindStore => "When bind mounting /nix/store",
        Stage::RemountStoreReadonly => "When remounting /nix/store read-only",
        Stage::OpenLogDevice => "When opening /dev/kmsg",
        Stage::DupLogDevice => "When duplicating /dev/kmsg fd",
        Stage::SpawnActivation => "When activating",
        Stage::ExecHandoff => "When handing off to the service manager",
    }
}

/// The actions that destroy an existing filesystem object.
pub open spec fn is_destructive(a: Action) -> bool {
    a is RemoveShmSymlink || a is RemoveShmDir
}

/// The states of the shared-memory repair phase.
pub open spec fn in_shm_repair(s: PipelineState) -> bool {
    ||| s is ReinspectingShm
    ||| s is RemovingShmSymlink
    ||| s is RemovingShmDir
    ||| s is CreatingShmDir
    ||| s is MovingShmMount
    ||| s is BindingShmBack
}

/// The state a trace of events drives the pipeline to.
pub open spec fn run_from(s: PipelineState, events: Seq<Event>) -> PipelineState
    decreases events.len(),
{
    if events.len() == 0 {
        s
    } else {
        run_from(spec_step(s, events[0]), events.drop_first())
    }
}

/// Whether each event of a trace can be the result of the action owed by the
/// state it is delivered in.
pub open spec fn trace_fits(s: PipelineState, events: Seq<Event>) -> bool
    decreases events.len(),
{
    events.len() > 0 ==> {
        &&& event_fits(s, events[0])
        &&& trace_fits(spec_step(s, events[0]), events.drop_first())
    }
}

/// A destructive removal is only ever owed inside the repair phase.
pub proof fn lemma_destructive_only_in_repair(s: PipelineState)
    requires
        spec_action_of(s) matches Some(a) && is_destructive(a),
    ensures
        in_shm_repair(s),
{
}

/// Stepping from any state past both the initial inspection and the repair
/// phase never re-enters either.
pub proof fn lemma_repair_never_reentered(s: PipelineState, e: Event)
    requires
        !in_shm_repair(s),
        !(s is CheckingShm),
        event_fits(s, e),
    ensures
        !in_shm_repair(spec_step(s, e)),
        !(spec_step(s, e) is CheckingShm),
{
}

/// A fitting trace from a state past the inspection and the repair phase
/// stays past both.
pub proof fn lemma_stays_out_of_repair(s: PipelineState, events: Seq<Event>)
    requires
        !in_shm_repair(s),
        !(s is CheckingShm),
        trace_fits(s, events),
    ensures
        !in_shm_repair(run_from(s, events)),
        !(run_from(s, events) is CheckingShm),
    decreases events.len(),
{
    if events.len() > 0 {
        lemma_repair_never_reentered(s, events[0]);
        lemma_stays_out_of_repair(spec_step(s, events[0]), events.drop_first());
    }
}

/// A fitting trace stays fitting on every prefix.
pub proof fn lemma_trace_fits_prefix(s: PipelineState, events: Seq<Event>, i: int)
    requires
        trace_fits(s, events),
        0 <= i <= events.len(),
    ensures
        trace_fits(s, events.take(i)),
    decreases i,
{
    if i > 0 {
        assert(events.take(i)[0] == events[0]);
        assert(events.take(i).drop_first() =~= events.drop_first().take(i - 1));
        lemma_trace_fits_prefix(spec_step(s, events[0]), events.drop_first(), i - 1);
    }
}

/// Repair is idempotent: when the first inspection finds anything but a
/// symlink, the pipeline goes straight on to the mount normalizer, and no
/// state of the rest of the run — however it continues — ever owes a
/// destructive removal.
pub proof fn lemma_repair_idempotent(k: FsObjectKind, events: Seq<Event>, i: int)
    requires
        k !is Symlink,
        trace_fits(spec_step(PipelineState::CheckingShm, Event::Inspected(k)), events),
        0 <= i <= events.len(),
    ensures
        spec_step(PipelineState::CheckingShm, Event::Inspected(k))
            == PipelineState::SharingRootMounts,
        !(spec_action_of(
            run_from(spec_step(PipelineState::CheckingShm, Event::Inspected(k)), events.take(i)),
        ) matches Some(a) && is_destructive(a)),
{
    let s0 = spec_step(PipelineState::CheckingShm, Event::Inspected(k));
    lemma_trace_fits_prefix(s0, events, i);
    lemma_stays_out_of_repair(s0, events.take(i));
}

/// The error a failed pipeline aborted with, if it has failed.
pub fn failure_of(s: PipelineState) -> (r: Option<ShimError>)
    ensures
        r == (match s {
            PipelineState::Failed(err) => Some(err),
            _ => None::<ShimError>,
        }),
{
    match s {
        PipelineState::Failed(err) => Some(err),
        _ => None,
    }
}

} // verus!

