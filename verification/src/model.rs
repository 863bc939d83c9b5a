//! The registry as a mathematical state machine.
//!
//! `RegistryState` is what a registry holds, written with maps and unbounded
//! numbers. Each operation is a pair of functions on it: which result the
//! operation gives, and which state it leaves. The executable registry is
//! specified by these functions, and the laws of the registry are proved of
//! them.

use vstd::prelude::*;
use crate::error::RegistryError;
use crate::identity::Identity;
use crate::version::VersionInfo;

verus! {

/// What is kept for one task: the number of its latest version and every
/// version published so far, by number.
#[verifier::ext_equal]
pub struct TaskState {
    pub latest_version: nat,
    pub versions: Map<nat, VersionInfo>,
}

impl TaskState {
    /// A task as registration leaves it: numbered 1, with nothing stored.
    pub open spec fn fresh() -> TaskState {
        TaskState { latest_version: 1, versions: Map::empty() }
    }

    /// The number under which the next version will be stored.
    pub open spec fn next_version(self) -> nat {
        self.latest_version + 1
    }

    /// The task after `info` was published: stored under the next number,
    /// which becomes the latest.
    pub open spec fn publish(self, info: VersionInfo) -> TaskState {
        TaskState {
            latest_version: self.next_version(),
            versions: self.versions.insert(self.next_version(), info),
        }
    }

    /// The version stored under the latest number, if there is one.
    pub open spec fn latest(self) -> Option<VersionInfo> {
        if self.versions.contains_key(self.latest_version) {
            Some(self.versions[self.latest_version])
        } else {
            None
        }
    }

    /// The stored version numbers are exactly 2, 3, ..., `latest_version`.
    pub open spec fn wf(self) -> bool {
        &&& self.latest_version >= 1
        &&& forall|v: nat| self.versions.contains_key(v) <==> 2 <= v <= self.latest_version
    }

    /// Every version stored in `self` is stored in `later`, unchanged, and
    /// the latest number has not gone down.
    pub open spec fn extended_by(self, later: TaskState) -> bool {
        &&& self.latest_version <= later.latest_version
        &&& forall|v: nat| #[trigger]
            self.versions.contains_key(v) ==> later.versions.contains_key(v)
                && later.versions[v] == self.versions[v]
    }
}

/// What a registry holds: its owner and its tasks, by identifier.
#[verifier::ext_equal]
pub struct RegistryState {
    pub owner: Identity,
    pub tasks: Map<Seq<char>, TaskState>,
}

impl RegistryState {
    /// A registry as it is created: owned by the all-zero address, without
    /// tasks.
    pub open spec fn is_empty(self) -> bool {
        &&& self.owner.is_zero()
        &&& self.tasks == Map::<Seq<char>, TaskState>::empty()
    }

    /// Every task of the registry is well formed.
    pub open spec fn wf(self) -> bool {
        forall|id: Seq<char>| #[trigger] self.tasks.contains_key(id) ==> self.tasks[id].wf()
    }

    /// Every task of `self` is a task of `later`, with all its versions
    /// unchanged.
    pub open spec fn extended_by(self, later: RegistryState) -> bool {
        forall|id: Seq<char>| #[trigger]
            self.tasks.contains_key(id) ==> later.tasks.contains_key(id)
                && self.tasks[id].extended_by(later.tasks[id])
    }

    /// The access check: only the owner passes.
    pub open spec fn assert_owner(self, caller: Identity) -> Result<(), RegistryError> {
        if caller == self.owner {
            Ok(())
        } else {
            Err(RegistryError::Unauthorized)
        }
    }

    /// The registry after `caller` initialised it: `caller` owns it.
    pub open spec fn init(self, caller: Identity) -> RegistryState {
        RegistryState { owner: caller, tasks: self.tasks }
    }

    /// The result of `caller` registering `task_id`. The access check comes
    /// first.
    pub open spec fn register_task_result(self, caller: Identity, task_id: Seq<char>) -> Result<
        (),
        RegistryError,
    > {
        if caller != self.owner {
            Err(RegistryError::Unauthorized)
        } else if self.tasks.contains_key(task_id) {
            Err(RegistryError::TaskAlreadyExists)
        } else {
            Ok(())
        }
    }

    /// The registry after `caller` tried to register `task_id`: with a fresh
    /// task under that identifier if the call succeeded, unchanged if not.
    pub open spec fn register_task(self, caller: Identity, task_id: Seq<char>) -> RegistryState {
        if self.register_task_result(caller, task_id) is Ok {
            RegistryState { owner: self.owner, tasks: self.tasks.insert(task_id, TaskState::fresh()) }
        } else {
            self
        }
    }

    /// The result of `caller` publishing a version of `task_id`. The access
    /// check comes first.
    pub open spec fn publish_new_version_result(
        self,
        caller: Identity,
        task_id: Seq<char>,
    ) -> Result<(), RegistryError> {
        if caller != self.owner {
            Err(RegistryError::Unauthorized)
        } else if !self.tasks.contains_key(task_id) {
            Err(RegistryError::TaskNotFound)
        } else {
            Ok(())
        }
    }

    /// The registry after `caller` tried to publish `hash` for `task_id` at
    /// time `timestamp`: with the new version stored under the task's next
    /// number if the call succeeded, unchanged if not.
    pub open spec fn publish_new_version(
        self,
        caller: Identity,
        task_id: Seq<char>,
        hash: [u8; 32],
        timestamp: u64,
    ) -> RegistryState {
        if self.publish_new_version_result(caller, task_id) is Ok {
            RegistryState {
                owner: self.owner,
                tasks: self.tasks.insert(
                    task_id,
                    self.tasks[task_id].publish(VersionInfo { hash, timestamp }),
                ),
            }
        } else {
            self
        }
    }

    /// The registry after `caller` tried to publish each of `versions` for
    /// `task_id`, one call after the other, in the order of the sequence.
    pub open spec fn publish_all(
        self,
        caller: Identity,
        task_id: Seq<char>,
        versions: Seq<VersionInfo>,
    ) -> RegistryState
        decreases versions.len(),
    {
        if versions.len() == 0 {
            self
        } else {
            self.publish_all(caller, task_id, versions.drop_last()).publish_new_version(
                caller,
                task_id,
                versions.last().hash,
                versions.last().timestamp,
            )
        }
    }

    /// What a query for the latest version of `task_id` returns. Anyone may
    /// ask.
    pub open spec fn get_latest(self, task_id: Seq<char>) -> Result<VersionInfo, RegistryError> {
        if !self.tasks.contains_key(task_id) {
            Err(RegistryError::TaskNotFound)
        } else {
            match self.tasks[task_id].latest() {
                Some(info) => Ok(info),
                None => Err(RegistryError::NoVersionsYet),
            }
        }
    }
}

} // verus!
