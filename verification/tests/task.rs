//! Tasks, identities and version records on their own.

use task_registry::{Identity, Task, VersionInfo};

#[test]
fn new_task_is_numbered_one_and_empty() {
    let task = Task::new();
    assert_eq!(task.latest_version(), 1);
    assert_eq!(task.latest(), None);
    assert_eq!(task.version(0), None);
    assert_eq!(task.version(1), None);
    assert_eq!(task.version(2), None);
    assert_eq!(task.version(u64::MAX), None);
}

#[test]
fn task_publish_appends_under_the_next_number() {
    let mut task = Task::new();
    let first = VersionInfo::new([1; 32], 100);
    let second = VersionInfo::new([2; 32], 50);
    task.publish(first);
    assert_eq!(task.latest_version(), 2);
    assert_eq!(task.latest(), Some(first));
    task.publish(second);
    assert_eq!(task.latest_version(), 3);
    assert_eq!(task.latest(), Some(second));
    assert_eq!(task.version(2), Some(first));
    assert_eq!(task.version(3), Some(second));
    assert_eq!(task.version(1), None);
    assert_eq!(task.version(4), None);
}

#[test]
fn version_info_new_keeps_its_arguments() {
    let info = VersionInfo::new([9; 32], 42);
    assert_eq!(info.hash, [9; 32]);
    assert_eq!(info.timestamp, 42);
    assert_eq!(info, VersionInfo { hash: [9; 32], timestamp: 42 });
}

#[test]
fn identity_same_as_compares_every_byte() {
    let a = Identity::new([5; 20]);
    assert!(a.same_as(&Identity::new([5; 20])));
    for i in 0..20 {
        let mut bytes = [5u8; 20];
        bytes[i] = 4;
        assert!(!a.same_as(&Identity::new(bytes)));
        assert!(!Identity::new(bytes).same_as(&a));
    }
}

#[test]
fn identity_zero_is_all_zero() {
    assert_eq!(Identity::zero().bytes, [0u8; 20]);
    assert!(Identity::zero().same_as(&Identity::new([0; 20])));
    assert!(!Identity::zero().same_as(&Identity::new([1; 20])));
}

#[test]
fn identity_new_keeps_the_bytes() {
    let mut bytes = [0u8; 20];
    for (i, byte) in bytes.iter_mut().enumerate() {
        *byte = i as u8;
    }
    assert_eq!(Identity::new(bytes).bytes, bytes);
}

#[test]
fn identity_equality_agrees_with_same_as() {
    let a = Identity::new([3; 20]);
    let mut bytes = [3u8; 20];
    assert_eq!(a == Identity::new(bytes), a.same_as(&Identity::new(bytes)));
    bytes[10] = 0;
    assert_eq!(a == Identity::new(bytes), a.same_as(&Identity::new(bytes)));
    assert_ne!(a, Identity::new(bytes));
}
