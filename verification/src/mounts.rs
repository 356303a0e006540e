//! What each mount action does, and to which paths.
//!
//! The pipeline states owe mount operations; this module pins, for each such
//! action, the kind of mount call, its source and its target, and the fixed
//! paths the shim works on. It also carries a small model of the machine
//! state these actions touch, on which the idempotence laws are proved.

use vstd::prelude::*;

use crate::pipeline::Action;
use crate::pipeline::FsObjectKind;

verus! {

/// The kind of mount call an action performs.
#[derive(Clone, Copy, Debug, PartialEq, Eq, Structural)]
pub enum MountOp {
    /// Move an existing mount from the source path onto the target path.
    Move,
    /// Create a bind mount of the source path at the target path.
    Bind,
    /// Recursively mark the target mount and its submounts
    /// shared-propagation. No data is remounted and no source is involved.
    RecursiveShared,
    /// Remount an existing bind mount at the target read-only. A bind mount
    /// and its read-only flag cannot be combined in one call, which is why
    /// the store is bound first and remounted second.
    BindRemountReadonly,
}

/// The mount call each action performs, if it is a mount action.
pub open spec fn spec_mount_op_of(a: Action) -> Option<MountOp> {
    match a {
        Action::MoveShmMount => Some(MountOp::Move),
        Action::BindShmBack => Some(MountOp::Bind),
        Action::ShareRootMounts => Some(MountOp::RecursiveShared),
        Action::BindStore => Some(MountOp::Bind),
        Action::RemountStoreReadonly => Some(MountOp::BindRemountReadonly),
        _ => None,
    }
}

/// The kind of mount call an action performs, or `None` for actions that are
/// not mounts.
pub fn mount_op_of(a: Action) -> (r: Option<MountOp>)
    ensures
        r == spec_mount_op_of(a),
{
    match a {
        Action::MoveShmMount => Some(MountOp::Move),
        Action::BindShmBack => Some(MountOp::Bind),
        Action::ShareRootMounts => Some(MountOp::RecursiveShared),
        Action::BindStore => Some(MountOp::Bind),
        Action::RemountStoreReadonly => Some(MountOp::BindRemountReadonly),
        _ => None,
    }
}

/// The source path of a mount action. Marking propagation shared takes no
/// source; the store is bound onto itself.
pub fn mount_source_of(a: Action) -> (r: Option<&'static str>)
    ensures
        a is MoveShmMount ==> (r matches Some(s) && s@ == "/run/shm"@),
        a is BindShmBack ==> (r matches Some(s) && s@ == "/dev/shm"@),
        a is BindStore ==> (r matches Some(s) && s@ == "/nix/store"@),
        a is RemountStoreReadonly ==> (r matches Some(s) && s@ == "/nix/store"@),
        a is ShareRootMounts ==> r is None,
        spec_mount_op_of(a) is None ==> r is None,
{
    match a {
        Action::MoveShmMount => Some("/run/shm"),
        Action::BindShmBack => Some("/dev/shm"),
        Action::BindStore => Some("/nix/store"),
        Action::RemountStoreReadonly => Some("/nix/store"),
        _ => None,
    }
}

/// The target path of a mount action.
pub fn mount_target_of(a: Action) -> (r: Option<&'static str>)
    ensures
        a is MoveShmMount ==> (r matches Some(s) && s@ == "/dev/shm"@),
        a is BindShmBack ==> (r matches Some(s) && s@ == "/run/shm"@),
        a is ShareRootMounts ==> (r matches Some(s) && s@ == "/"@),
        a is BindStore ==> (r matches Some(s) && s@ == "/nix/store"@),
        a is RemountStoreReadonly ==> (r matches Some(s) && s@ == "/nix/store"@),
        spec_mount_op_of(a) is None ==> r is None,
{
    match a {
        Action::MoveShmMount => Some("/dev/shm"),
        Action::BindShmBack => Some("/run/shm"),
        Action::ShareRootMounts => Some("/"),
        Action::BindStore => Some("/nix/store"),
        Action::RemountStoreReadonly => Some("/nix/store"),
        _ => None,
    }
}

/// The shared-memory mount point.
pub fn shm_path() -> (r: &'static str)
    ensures
        r@ == "/dev/shm"@,
{
    "/dev/shm"
}

/// The path that was intended to back the shared-memory mount.
pub fn shm_backing_path() -> (r: &'static str)
    ensures
        r@ == "/run/shm"@,
{
    "/run/shm"
}

/// The package store.
pub fn store_path() -> (r: &'static str)
    ensures
        r@ == "/nix/store"@,
{
    "/nix/store"
}

/// The root mount point.
pub fn root_path() -> (r: &'static str)
    ensures
        r@ == "/"@,
{
    "/"
}

/// The kernel log device the child's output streams are sent to.
pub fn log_device_path() -> (r: &'static str)
    ensures
        r@ == "/dev/kmsg"@,
{
    "/dev/kmsg"
}

/// The one-shot activation program.
pub fn activation_program_path() -> (r: &'static str)
    ensures
        r@ == "/nix/var/nix/profiles/system/activate"@,
{
    "/nix/var/nix/profiles/system/activate"
}

/// The service manager the shim hands off to.
pub fn service_manager_path() -> (r: &'static str)
    ensures
        r@ == "/nix/var/nix/profiles/system/systemd/lib/systemd/systemd"@,
{
    "/nix/var/nix/profiles/system/systemd/lib/systemd/systemd"
}

/// The locale variable set in the activation child's environment (and only
/// there), and its fixed UTF-8 value.
pub fn child_locale_name() -> (r: &'static str)
    ensures
        r@ == "LANG"@,
{
    "LANG"
}

/// The value of the child's locale variable.
pub fn child_locale_value() -> (r: &'static str)
    ensures
        r@ == "C.UTF-8"@,
{
    "C.UTF-8"
}

/// The machine state the pipeline's actions touch, as far as this library
/// models it: the kind of object at the shared-memory path, whether its
/// backing mount has been moved onto it and bound back, the root mount's
/// propagation, and the store's bind and read-only flags.
#[derive(Clone, Copy, Debug, PartialEq, Eq, Structural)]
pub struct MountModel {
    /// What sits at the shared-memory path.
    pub shm_kind: FsObjectKind,
    /// The backing mount has been moved onto the shared-memory directory.
    pub shm_backed: bool,
    /// The backing path is bind-mounted from the repaired directory.
    pub backing_bound: bool,
    /// The root mount and its submounts are shared-propagation.
    pub root_shared: bool,
    /// The store is bind-mounted onto itself.
    pub store_bound: bool,
    /// The store bind is read-only.
    pub store_readonly: bool,
}

/// What each action does to the modeled machine state. Actions that are not
/// modeled mutations (inspections, waits, the exec) leave it unchanged.
pub open spec fn apply_mount_action(a: Action, m: MountModel) -> MountModel {
    match a {
        Action::RemoveShmSymlink => (MountModel { shm_kind: FsObjectKind::Absent, ..m }),
        Action::RemoveShmDir => (MountModel { shm_kind: FsObjectKind::Absent, ..m }),
        Action::CreateShmDir => (MountModel { shm_kind: FsObjectKind::Directory, ..m }),
        Action::MoveShmMount => (MountModel { shm_backed: true, ..m }),
        Action::BindShmBack => (MountModel { backing_bound: true, ..m }),
        Action::ShareRootMounts => (MountModel { root_shared: true, ..m }),
        Action::BindStore => (MountModel { store_bound: true, ..m }),
        Action::RemountStoreReadonly => (MountModel { store_readonly: true, ..m }),
        _ => m,
    }
}

/// A sequence of actions applied in order.
pub open spec fn apply_mount_actions(actions: Seq<Action>, m: MountModel) -> MountModel
    decreases actions.len(),
{
    if actions.len() == 0 {
        m
    } else {
        apply_mount_actions(actions.drop_first(), apply_mount_action(actions[0], m))
    }
}

/// Marking root propagation shared is idempotent: it only sets the
/// propagation type, so applying it to an already-shared mount table changes
/// nothing observable.
pub proof fn lemma_root_shared_idempotent(m: MountModel)
    ensures
        apply_mount_action(Action::ShareRootMounts, apply_mount_action(Action::ShareRootMounts, m))
            == apply_mount_action(Action::ShareRootMounts, m),
{
}

/// The repair sequence for a symlinked shared-memory path — unlink, create
/// the directory, move the backing mount onto it, bind it back — leaves a
/// real directory backed by the original target, with the backing path still
/// usable.
pub proof fn lemma_repair_establishes_backing(m: MountModel)
    ensures
        ({
            let repaired = apply_mount_actions(
                seq![
                    Action::RemoveShmSymlink,
                    Action::CreateShmDir,
                    Action::MoveShmMount,
                    Action::BindShmBack,
                ],
                m,
            );
            &&& repaired.shm_kind is Directory
            &&& repaired.shm_backed
            &&& repaired.backing_bound
            &&& repaired.root_shared == m.root_shared
            &&& repaired.store_bound == m.store_bound
            &&& repaired.store_readonly == m.store_readonly
        }),
{
    reveal_with_fuel(apply_mount_actions, 5);
    let s = seq![
        Action::RemoveShmSymlink,
        Action::CreateShmDir,
        Action::MoveShmMount,
        Action::BindShmBack,
    ];
    assert(s.drop_first() =~= seq![Action::CreateShmDir, Action::MoveShmMount, Action::BindShmBack]);
    assert(s.drop_first().drop_first() =~= seq![Action::MoveShmMount, Action::BindShmBack]);
    assert(s.drop_first().drop_first().drop_first() =~= seq![Action::BindShmBack]);
    assert(s.drop_first().drop_first().drop_first().drop_first() =~= Seq::<Action>::empty());
}

} // verus!
