//! One task of the registry: its latest version number and its history.

use vstd::prelude::*;
use std::collections::HashMap;
use crate::model::TaskState;
use crate::version::VersionInfo;

verus! {

broadcast use vstd::std_specs::hash::group_hash_axioms;

/// A registered task. Versions are only ever added, each under the number
/// that follows the latest; none is changed or removed.
pub struct Task {
    latest_version: u64,
    versions: HashMap<u64, VersionInfo>,
}

impl View for Task {
    type V = TaskState;

    closed spec fn view(&self) -> TaskState {
        TaskState {
            latest_version: self.latest_version as nat,
            versions: Map::new(
                |v: nat| v <= u64::MAX && self.versions@.contains_key(v as u64),
                |v: nat| self.versions@[v as u64],
            ),
        }
    }
}

impl Task {
    /// A task as registration creates it: numbered 1, with nothing stored.
    pub fn new() -> (task: Task)
        ensures
            task@ == TaskState::fresh(),
    {
        Task { latest_version: 1, versions: HashMap::new() }
    }

    /// The number of the latest version.
    pub fn latest_version(&self) -> (number: u64)
        ensures
            number == self@.latest_version,
    {
        self.latest_version
    }

    /// The version stored under `number`, if there is one.
    pub fn version(&self, number: u64) -> (found: Option<VersionInfo>)
        ensures
            found == if self@.versions.contains_key(number as nat) {
                Some(self@.versions[number as nat])
            } else {
                None
            },
    {
        match self.versions.get(&number) {
            Some(info) => Some(*info),
            None => None,
        }
    }

    /// The version stored under the latest number, if there is one.
    pub fn latest(&self) -> (found: Option<VersionInfo>)
        ensures
            found == self@.latest(),
    {
        self.version(self.latest_version)
    }

    /// Stores `info` under the next version number and makes that number the
    /// latest. The next number must fit the counter.
    pub fn publish(&mut self, info: VersionInfo)
        requires
            old(self)@.latest_version < u64::MAX,
        ensures
            final(self)@ == old(self)@.publish(info),
    {
        let new_version: u64 = self.latest_version + 1;
        self.versions.insert(new_version, info);
        self.latest_version = new_version;
    }
}

} // verus!
