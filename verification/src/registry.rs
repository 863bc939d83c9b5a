//! The registry: an owner, and the tasks by identifier.

use vstd::prelude::*;
use vstd::hash_map::StringHashMap;
use crate::error::RegistryError;
use crate::identity::Identity;
use crate::model::RegistryState;
use crate::model::TaskState;
use crate::task::Task;
use crate::version::VersionInfo;

verus! {

/// A registry of versioned tasks, held in memory.
///
/// The caller's identity and the time of publishing are arguments of the
/// operations: the registry asks no host for them. An operation that fails
/// leaves the registry exactly as it was.
pub struct Registry {
    owner: Identity,
    /// For each registered identifier, the place of its task in `slots`.
    index: StringHashMap<usize>,
    slots: Vec<Task>,
}

impl View for Registry {
    type V = RegistryState;

    closed spec fn view(&self) -> RegistryState {
        RegistryState {
            owner: self.owner,
            tasks: Map::new(
                |id: Seq<char>| self.index@.contains_key(id),
                |id: Seq<char>| self.slots@[self.index@[id] as int]@,
            ),
        }
    }
}

impl Registry {
    /// The registry's invariant: every identifier has a slot of its own, and
    /// every task is well formed. `new` establishes it and every operation
    /// keeps it.
    pub closed spec fn wf(&self) -> bool {
        &&& forall|id: Seq<char>| #[trigger]
            self.index@.contains_key(id) ==> self.index@[id] < self.slots@.len()
        &&& forall|a: Seq<char>, b: Seq<char>|
            #![trigger self.index@[a], self.index@[b]]
            self.index@.contains_key(a) && self.index@.contains_key(b) && self.index@[a]
                == self.index@[b] ==> a == b
        &&& forall|i: int| 0 <= i < self.slots@.len() ==> (#[trigger] self.slots@[i])@.wf()
    }

    /// A well-formed registry holds a well-formed state: under every task the
    /// stored version numbers are exactly 2, 3, ..., up to its latest.
    pub proof fn lemma_view_wf(&self)
        requires
            self.wf(),
        ensures
            self@.wf(),
    {
    }

    /// A registry as it is created: owned by the all-zero address, without
    /// tasks.
    pub fn new() -> (registry: Registry)
        ensures
            registry.wf(),
            registry@.is_empty(),
    {
        let registry = Registry {
            owner: Identity::zero(),
            index: StringHashMap::new(),
            slots: Vec::new(),
        };
        assert(registry@.tasks =~= Map::<Seq<char>, TaskState>::empty());
        registry
    }

    /// The owner: the all-zero address until the registry is initialised.
    pub fn owner(&self) -> (owner: Identity)
        ensures
            owner == self@.owner,
    {
        self.owner
    }

    /// The task registered under `task_id`, if there is one.
    pub fn task(&self, task_id: &str) -> (found: Option<&Task>)
        requires
            self.wf(),
        ensures
            match found {
                Some(task) => self@.tasks.contains_key(task_id@) && task@ == self@.tasks[task_id@],
                None => !self@.tasks.contains_key(task_id@),
            },
    {
        match self.index.get(task_id) {
            Some(place) => Some(&self.slots[*place]),
            None => None,
        }
    }

    /// Makes `caller` the owner, whoever owned the registry before. Nothing
    /// guards a second call: it hands the registry to the new caller.
    pub fn init(&mut self, caller: Identity)
        requires
            old(self).wf(),
        ensures
            final(self).wf(),
            final(self)@ == old(self)@.init(caller),
            final(self)@.owner == caller,
            old(self)@.extended_by(final(self)@),
    {
        self.owner = caller;
    }

    /// The access check: succeeds for the owner and for nobody else.
    pub fn assert_owner(&self, caller: Identity) -> (res: Result<(), RegistryError>)
        ensures
            res == self@.assert_owner(caller),
    {
        if caller.same_as(&self.owner) {
            Ok(())
        } else {
            Err(RegistryError::Unauthorized)
        }
    }

    /// Registers a task under `task_id`, numbered 1 and without versions.
    ///
    /// Fails with `Unauthorized` unless `caller` is the owner, and with
    /// `TaskAlreadyExists` if the owner registers an identifier twice.
    pub fn register_task(&mut self, caller: Identity, task_id: String) -> (res: Result<
        (),
        RegistryError,
    >)
        requires
            old(self).wf(),
        ensures
            final(self).wf(),
            res == old(self)@.register_task_result(caller, task_id@),
            final(self)@ == old(self)@.register_task(caller, task_id@),
            caller != old(self)@.owner ==> res == Err::<(), RegistryError>(
                RegistryError::Unauthorized,
            ),
            res is Err ==> *final(self) == *old(self),
            res is Err ==> final(self)@ == old(self)@,
            old(self)@.extended_by(final(self)@),
    {
        if !caller.same_as(&self.owner) {
            return Err(RegistryError::Unauthorized);
        }
        if self.index.contains_key(task_id.as_str()) {
            return Err(RegistryError::TaskAlreadyExists);
        }
        let place = self.slots.len();
        self.slots.push(Task::new());
        self.index.insert(task_id, place);
        Ok(())
    }

    /// Publishes `hash` as the next version of `task_id`, stamped with
    /// `timestamp`, the host's time of the call.
    ///
    /// Fails with `Unauthorized` unless `caller` is the owner, and with
    /// `TaskNotFound` if the owner names a task that is not registered. The
    /// next version number must fit the counter.
    pub fn publish_new_version(
        &mut self,
        caller: Identity,
        task_id: String,
        hash: [u8; 32],
        timestamp: u64,
    ) -> (res: Result<(), RegistryError>)
        requires
            old(self).wf(),
            old(self)@.publish_new_version_result(caller, task_id@) is Ok ==> old(
                self,
            )@.tasks[task_id@].latest_version < u64::MAX,
        ensures
            final(self).wf(),
            res == old(self)@.publish_new_version_result(caller, task_id@),
            final(self)@ == old(self)@.publish_new_version(caller, task_id@, hash, timestamp),
            caller != old(self)@.owner ==> res == Err::<(), RegistryError>(
                RegistryError::Unauthorized,
            ),
            res is Err ==> *final(self) == *old(self),
            res is Err ==> final(self)@ == old(self)@,
            old(self)@.extended_by(final(self)@),
    {
        if !caller.same_as(&self.owner) {
            return Err(RegistryError::Unauthorized);
        }
        let place = match self.index.get(task_id.as_str()) {
            Some(place) => *place,
            None => {
                return Err(RegistryError::TaskNotFound);
            },
        };
        self.slots[place].publish(VersionInfo { hash, timestamp });
        Ok(())
    }

    /// A copy of the version stored under the latest number of `task_id`.
    /// Anyone may ask.
    ///
    /// Fails with `TaskNotFound` if no task is registered under `task_id`,
    /// and with `NoVersionsYet` if nothing is stored under its latest number,
    /// as is the case until the first version is published.
    pub fn get_latest(&self, task_id: String) -> (res: Result<VersionInfo, RegistryError>)
        requires
            self.wf(),
        ensures
            res == self@.get_latest(task_id@),
    {
        match self.index.get(task_id.as_str()) {
            None => Err(RegistryError::TaskNotFound),
            Some(place) => match self.slots[*place].latest() {
                Some(info) => Ok(info),
                None => Err(RegistryError::NoVersionsYet),
            },
        }
    }
}

} // verus!
