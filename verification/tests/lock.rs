use imp_core::error::ImpError;
use imp_core::lock::{imp_acquire_lock, imp_lock_held, imp_release_lock, Acquire, ImportLock};

#[test]
fn fresh_lock_is_not_held() {
    let lock = ImportLock::new(true);
    assert!(!imp_lock_held(&lock));
    assert!(lock.threading());
    assert_eq!(lock.owner(), None);
    assert_eq!(lock.depth(), 0);
}

#[test]
fn acquire_then_release_toggles_held() {
    let mut lock = ImportLock::new(true);
    assert_eq!(imp_acquire_lock(&mut lock, 1), Acquire::Granted);
    assert!(imp_lock_held(&lock));
    assert_eq!(lock.owner(), Some(1));
    assert_eq!(lock.depth(), 1);
    assert_eq!(imp_release_lock(&mut lock), Ok(()));
    assert!(!imp_lock_held(&lock));
    assert_eq!(lock.owner(), None);
    assert_eq!(lock.depth(), 0);
}

#[test]
fn release_without_acquire_is_a_usage_error() {
    let mut lock = ImportLock::new(true);
    let err = imp_release_lock(&mut lock).unwrap_err();
    assert_eq!(err, ImpError::Usage);
    assert_eq!(err.message(), "global import lock not held");
    assert!(err.message().contains("lock not held"));
    assert!(!imp_lock_held(&lock));
    assert_eq!(lock.depth(), 0);
}

#[test]
fn second_release_is_a_usage_error() {
    let mut lock = ImportLock::new(true);
    assert_eq!(imp_acquire_lock(&mut lock, 4), Acquire::Granted);
    assert_eq!(imp_release_lock(&mut lock), Ok(()));
    assert_eq!(imp_release_lock(&mut lock), Err(ImpError::Usage));
    assert!(!imp_lock_held(&lock));
}

#[test]
fn owner_may_acquire_again() {
    let mut lock = ImportLock::new(true);
    assert_eq!(imp_acquire_lock(&mut lock, 9), Acquire::Granted);
    assert_eq!(imp_acquire_lock(&mut lock, 9), Acquire::Granted);
    assert_eq!(imp_acquire_lock(&mut lock, 9), Acquire::Granted);
    assert_eq!(lock.depth(), 3);
    assert_eq!(lock.owner(), Some(9));
    assert_eq!(imp_release_lock(&mut lock), Ok(()));
    assert!(imp_lock_held(&lock));
    assert_eq!(lock.depth(), 2);
    assert_eq!(imp_release_lock(&mut lock), Ok(()));
    assert!(imp_lock_held(&lock));
    assert_eq!(lock.owner(), Some(9));
    assert_eq!(imp_release_lock(&mut lock), Ok(()));
    assert!(!imp_lock_held(&lock));
    assert_eq!(lock.owner(), None);
}

#[test]
fn other_thread_must_wait_until_release() {
    let mut lock = ImportLock::new(true);
    assert_eq!(imp_acquire_lock(&mut lock, 1), Acquire::Granted);
    assert_eq!(imp_acquire_lock(&mut lock, 2), Acquire::MustWait);
    assert_eq!(lock.owner(), Some(1));
    assert_eq!(lock.depth(), 1);
    assert_eq!(imp_release_lock(&mut lock), Ok(()));
    assert_eq!(imp_acquire_lock(&mut lock, 2), Acquire::Granted);
    assert_eq!(lock.owner(), Some(2));
    assert_eq!(lock.depth(), 1);
}

#[test]
fn waiting_thread_does_not_disturb_nested_hold() {
    let mut lock = ImportLock::new(true);
    assert_eq!(imp_acquire_lock(&mut lock, 1), Acquire::Granted);
    assert_eq!(imp_acquire_lock(&mut lock, 1), Acquire::Granted);
    assert_eq!(imp_acquire_lock(&mut lock, 2), Acquire::MustWait);
    assert_eq!(imp_release_lock(&mut lock), Ok(()));
    assert_eq!(imp_acquire_lock(&mut lock, 2), Acquire::MustWait);
    assert_eq!(imp_release_lock(&mut lock), Ok(()));
    assert_eq!(imp_acquire_lock(&mut lock, 2), Acquire::Granted);
}

#[test]
fn thread_zero_is_a_thread_like_any_other() {
    let mut lock = ImportLock::new(true);
    assert_eq!(imp_acquire_lock(&mut lock, 0), Acquire::Granted);
    assert_eq!(lock.owner(), Some(0));
    assert_eq!(imp_acquire_lock(&mut lock, u64::MAX), Acquire::MustWait);
    assert!(imp_lock_held(&lock));
}

#[test]
fn without_threading_acquire_changes_nothing() {
    let mut lock = ImportLock::new(false);
    assert!(!lock.threading());
    assert_eq!(imp_acquire_lock(&mut lock, 1), Acquire::Granted);
    assert!(!imp_lock_held(&lock));
    assert_eq!(lock.owner(), None);
    assert_eq!(lock.depth(), 0);
    assert_eq!(imp_acquire_lock(&mut lock, 2), Acquire::Granted);
    assert!(!imp_lock_held(&lock));
}

#[test]
fn without_threading_release_never_fails() {
    let mut lock = ImportLock::new(false);
    assert_eq!(imp_release_lock(&mut lock), Ok(()));
    assert_eq!(imp_acquire_lock(&mut lock, 1), Acquire::Granted);
    assert_eq!(imp_release_lock(&mut lock), Ok(()));
    assert_eq!(imp_release_lock(&mut lock), Ok(()));
    assert!(!imp_lock_held(&lock));
}
