//! The walk through one task's life: initialise, register, publish, query.

use task_registry::{Identity, Registry, RegistryError, VersionInfo};

const A: Identity = Identity { bytes: [0xA1; 20] };
const B: Identity = Identity { bytes: [0xB2; 20] };
const H1: [u8; 32] = [0x11; 32];
const H2: [u8; 32] = [0x22; 32];
const T1: u64 = 1_700_000_000;
const T2: u64 = 1_700_000_600;

fn initialised() -> Registry {
    let mut registry = Registry::new();
    registry.init(A);
    registry
}

fn registered() -> Registry {
    let mut registry = initialised();
    assert_eq!(registry.register_task(A, "task-1".to_string()), Ok(()));
    registry
}

fn published_once() -> Registry {
    let mut registry = registered();
    assert_eq!(registry.publish_new_version(A, "task-1".to_string(), H1, T1), Ok(()));
    registry
}

#[test]
fn scenario_init_sets_owner() {
    let registry = initialised();
    assert_eq!(registry.owner(), A);
}

#[test]
fn scenario_register_creates_empty_task_numbered_one() {
    let registry = registered();
    let task = registry.task("task-1").expect("task-1 is registered");
    assert_eq!(task.latest_version(), 1);
    assert_eq!(task.latest(), None);
    for number in 0..16u64 {
        assert_eq!(task.version(number), None);
    }
}

#[test]
fn scenario_get_latest_before_publish_fails() {
    let registry = registered();
    assert_eq!(registry.get_latest("task-1".to_string()), Err(RegistryError::NoVersionsYet));
}

#[test]
fn scenario_first_publish_lands_at_version_two() {
    let registry = published_once();
    let task = registry.task("task-1").expect("task-1 is registered");
    assert_eq!(task.latest_version(), 2);
    assert_eq!(task.version(2), Some(VersionInfo { hash: H1, timestamp: T1 }));
    assert_eq!(task.version(1), None);
    assert_eq!(task.version(3), None);
}

#[test]
fn scenario_get_latest_returns_first_publish() {
    let registry = published_once();
    assert_eq!(
        registry.get_latest("task-1".to_string()),
        Ok(VersionInfo { hash: H1, timestamp: T1 })
    );
}

#[test]
fn scenario_publish_by_stranger_is_unauthorized() {
    let mut registry = published_once();
    assert_eq!(
        registry.publish_new_version(B, "task-1".to_string(), H2, T2),
        Err(RegistryError::Unauthorized)
    );
    assert_eq!(registry.owner(), A);
    let task = registry.task("task-1").expect("task-1 is registered");
    assert_eq!(task.latest_version(), 2);
    assert_eq!(task.version(2), Some(VersionInfo { hash: H1, timestamp: T1 }));
    assert_eq!(task.version(3), None);
    assert_eq!(
        registry.get_latest("task-1".to_string()),
        Ok(VersionInfo { hash: H1, timestamp: T1 })
    );
}

#[test]
fn scenario_second_publish_lands_at_version_three() {
    let mut registry = published_once();
    assert_eq!(
        registry.publish_new_version(B, "task-1".to_string(), H2, T2),
        Err(RegistryError::Unauthorized)
    );
    assert_eq!(registry.publish_new_version(A, "task-1".to_string(), H2, T2), Ok(()));
    let task = registry.task("task-1").expect("task-1 is registered");
    assert_eq!(task.latest_version(), 3);
    assert_eq!(task.version(3), Some(VersionInfo { hash: H2, timestamp: T2 }));
    assert_eq!(task.version(2), Some(VersionInfo { hash: H1, timestamp: T1 }));
    assert_eq!(
        registry.get_latest("task-1".to_string()),
        Ok(VersionInfo { hash: H2, timestamp: T2 })
    );
}
