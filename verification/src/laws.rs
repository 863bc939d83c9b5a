//! What holds of the registry whatever its state and whoever calls.
//!
//! Each law is proved of the state machine in `model`, by which the
//! operations of `Registry` are specified.

use vstd::prelude::*;
use crate::error::RegistryError;
use crate::identity::Identity;
use crate::model::RegistryState;
use crate::version::VersionInfo;

verus! {

/// Once `owner` has initialised the registry, a mutating call by anyone
/// else fails with `Unauthorized` and changes nothing.
pub proof fn law_only_the_owner_mutates(
    state: RegistryState,
    owner: Identity,
    other: Identity,
    task_id: Seq<char>,
    hash: [u8; 32],
    timestamp: u64,
)
    requires
        other != owner,
    ensures
        state.init(owner).owner == owner,
        state.init(owner).register_task_result(other, task_id) == Err::<(), RegistryError>(
            RegistryError::Unauthorized,
        ),
        state.init(owner).register_task(other, task_id) == state.init(owner),
        state.init(owner).publish_new_version_result(other, task_id) == Err::<(), RegistryError>(
            RegistryError::Unauthorized,
        ),
        state.init(owner).publish_new_version(other, task_id, hash, timestamp) == state.init(
            owner,
        ),
{
}

/// When the owner registers an identifier and then registers it again, the
/// second call fails with `TaskAlreadyExists` and leaves what the first call
/// left.
pub proof fn law_register_twice(state: RegistryState, caller: Identity, task_id: Seq<char>)
    requires
        caller == state.owner,
    ensures
        state.register_task(caller, task_id).register_task_result(caller, task_id) == Err::<
            (),
            RegistryError,
        >(RegistryError::TaskAlreadyExists),
        state.register_task(caller, task_id).register_task(caller, task_id)
            == state.register_task(caller, task_id),
{
}

/// After the owner registers a new task and publishes `versions` one after
/// the other, the task's latest number is their count plus one, the stored
/// numbers are exactly 2, 3, ..., up to that number, and the k-th version
/// published is the one stored under k + 1. As this holds for every count,
/// no later publish changes a version once stored.
pub proof fn law_versions_are_consecutive(
    state: RegistryState,
    task_id: Seq<char>,
    versions: Seq<VersionInfo>,
)
    requires
        !state.tasks.contains_key(task_id),
    ensures
        ({
            let end = state.register_task(state.owner, task_id).publish_all(
                state.owner,
                task_id,
                versions,
            );
            &&& end.tasks.contains_key(task_id)
            &&& end.tasks[task_id].latest_version == versions.len() + 1
            &&& forall|v: nat|
                end.tasks[task_id].versions.contains_key(v) <==> 2 <= v <= versions.len() + 1
            &&& forall|k: int|
                0 <= k < versions.len() ==> end.tasks[task_id].versions[(k + 2) as nat]
                    == #[trigger] versions[k]
        }),
    decreases versions.len(),
{
    if versions.len() > 0 {
        let fewer = versions.drop_last();
        law_versions_are_consecutive(state, task_id, fewer);
        assert forall|k: int| 0 <= k < fewer.len() implies fewer[k] == versions[k] by {}
        lemma_publish_all_keeps_owner(
            state.register_task(state.owner, task_id),
            state.owner,
            task_id,
            fewer,
        );
    }
}

/// Publishing never changes the owner.
proof fn lemma_publish_all_keeps_owner(
    state: RegistryState,
    caller: Identity,
    task_id: Seq<char>,
    versions: Seq<VersionInfo>,
)
    ensures
        state.publish_all(caller, task_id, versions).owner == state.owner,
    decreases versions.len(),
{
    if versions.len() > 0 {
        lemma_publish_all_keeps_owner(state, caller, task_id, versions.drop_last());
    }
}

/// After a successful publish of `hash`, the latest version of the task is
/// the one just published, with that hash byte for byte and the time of the
/// call.
pub proof fn law_publish_then_get_latest(
    state: RegistryState,
    caller: Identity,
    task_id: Seq<char>,
    hash: [u8; 32],
    timestamp: u64,
)
    requires
        state.publish_new_version_result(caller, task_id) is Ok,
    ensures
        state.publish_new_version(caller, task_id, hash, timestamp).get_latest(task_id) == Ok::<
            VersionInfo,
            RegistryError,
        >(VersionInfo { hash, timestamp }),
{
}

/// A task that was registered and never published has no latest version to
/// give.
pub proof fn law_new_task_has_no_version(
    state: RegistryState,
    caller: Identity,
    task_id: Seq<char>,
)
    requires
        state.register_task_result(caller, task_id) is Ok,
    ensures
        state.register_task(caller, task_id).get_latest(task_id) == Err::<
            VersionInfo,
            RegistryError,
        >(RegistryError::NoVersionsYet),
{
}

/// A call that fails leaves the owner, the tasks, their latest numbers and
/// their versions as they were.
pub proof fn law_failure_changes_nothing(
    state: RegistryState,
    caller: Identity,
    task_id: Seq<char>,
    hash: [u8; 32],
    timestamp: u64,
)
    ensures
        state.register_task_result(caller, task_id) is Err ==> state.register_task(
            caller,
            task_id,
        ) == state,
        state.publish_new_version_result(caller, task_id) is Err ==> state.publish_new_version(
            caller,
            task_id,
            hash,
            timestamp,
        ) == state,
{
}

/// The created registry is well formed, and every operation keeps a
/// well-formed registry well formed: under each task the stored version
/// numbers stay exactly 2, 3, ..., up to its latest.
pub proof fn law_operations_keep_wf(
    state: RegistryState,
    caller: Identity,
    task_id: Seq<char>,
    hash: [u8; 32],
    timestamp: u64,
)
    ensures
        state.is_empty() ==> state.wf(),
        state.wf() ==> state.init(caller).wf(),
        state.wf() ==> state.register_task(caller, task_id).wf(),
        state.wf() ==> state.publish_new_version(caller, task_id, hash, timestamp).wf(),
{
}

/// No operation on a well-formed registry removes a task, lowers a latest
/// number, or changes or removes a stored version. A successful publish
/// raises the task's latest number by exactly one.
pub proof fn law_history_is_kept(
    state: RegistryState,
    caller: Identity,
    task_id: Seq<char>,
    hash: [u8; 32],
    timestamp: u64,
)
    requires
        state.wf(),
    ensures
        state.extended_by(state.init(caller)),
        state.extended_by(state.register_task(caller, task_id)),
        state.extended_by(state.publish_new_version(caller, task_id, hash, timestamp)),
        state.publish_new_version_result(caller, task_id) is Ok ==> state.publish_new_version(
            caller,
            task_id,
            hash,
            timestamp,
        ).tasks[task_id].latest_version == state.tasks[task_id].latest_version + 1,
{
}

/// What was kept over one stretch of calls and over the next is kept over
/// both: a stored version survives any number of operations.
pub proof fn law_extension_composes(
    first: RegistryState,
    second: RegistryState,
    third: RegistryState,
)
    requires
        first.extended_by(second),
        second.extended_by(third),
    ensures
        first.extended_by(third),
{
}

} // verus!
