use cache_lock::location::{lock_folder, sentinel_path, LOCK_FILE};
use cache_lock::lock::{Acquisition, Exclusivity, Lock, SetupError, Teardown};

fn folder_and_sentinel(a: &Acquisition) -> (String, String) {
    match a {
        Acquisition::MakeFolder { folder, sentinel } => (folder.clone(), sentinel.clone()),
        _ => panic!("expected the folder stage"),
    }
}

fn into_lock(a: Acquisition) -> Lock {
    match a {
        Acquisition::Acquired(l) => l,
        _ => panic!("expected an acquired guard"),
    }
}

fn full_cycle(target: &str, single_file: bool, lock: Result<(), String>) -> Lock {
    let a = Acquisition::begin(target, single_file);
    let a = a.advance(Ok(()));
    assert!(matches!(a, Acquisition::OpenSentinel { .. }));
    let a = a.advance(Ok(()));
    assert!(matches!(a, Acquisition::TakeLock { .. }));
    into_lock(a.advance(lock))
}

#[test]
fn sentinel_name_is_fixed() {
    assert_eq!(LOCK_FILE, "sm.lock");
}

#[test]
fn folder_target_is_its_own_lock_folder() {
    assert_eq!(lock_folder("/cache/drivers", false), Some("/cache/drivers".to_string()));
}

#[test]
fn single_file_target_locks_in_parent() {
    assert_eq!(lock_folder("/cache/sub/out.bin", true), Some("/cache/sub".to_string()));
    assert_eq!(lock_folder("relative/out.bin", true), Some("relative".to_string()));
}

#[test]
fn single_file_target_without_parent() {
    assert_eq!(lock_folder("", true), None);
    assert_eq!(lock_folder("/", true), None);
}

#[test]
fn sentinel_is_joined_to_folder() {
    assert_eq!(sentinel_path("/cache/sub"), "/cache/sub/sm.lock");
    assert_eq!(sentinel_path("cache"), "cache/sm.lock");
}

#[test]
fn folder_target_acquires_inside_itself() {
    let a = Acquisition::begin("/tmp/never/made", false);
    assert_eq!(
        folder_and_sentinel(&a),
        ("/tmp/never/made".to_string(), "/tmp/never/made/sm.lock".to_string())
    );
    let l = full_cycle("/tmp/never/made", false, Ok(()));
    assert_eq!(l.sentinel(), "/tmp/never/made/sm.lock");
    assert!(!l.is_released());
    assert!(l.is_exclusive());
    assert_eq!(l.exclusivity(), &Exclusivity::Locked);
}

#[test]
fn single_file_target_acquires_in_parent() {
    let a = Acquisition::begin("/cache/sub/out.bin", true);
    assert_eq!(
        folder_and_sentinel(&a),
        ("/cache/sub".to_string(), "/cache/sub/sm.lock".to_string())
    );
    let l = full_cycle("/cache/sub/out.bin", true, Ok(()));
    assert_eq!(l.sentinel(), "/cache/sub/sm.lock");
}

#[test]
fn missing_parent_is_a_setup_error() {
    let a = Acquisition::begin("", true);
    assert!(a.is_finished());
    match a {
        Acquisition::Failed(e) => assert_eq!(e, SetupError::NoParent),
        _ => panic!("expected a setup error"),
    }
}

#[test]
fn folder_failure_yields_no_guard() {
    let a = Acquisition::begin("/proc/forbidden/cache", false);
    assert!(!a.is_finished());
    let a = a.advance(Err("permission denied".to_string()));
    assert!(a.is_finished());
    let a = a.advance(Ok(())).advance(Ok(()));
    match a {
        Acquisition::Failed(e) => {
            assert_eq!(e, SetupError::CreateFolder("permission denied".to_string()))
        }
        _ => panic!("expected a setup error"),
    }
}

#[test]
fn sentinel_failure_yields_no_guard() {
    let a = Acquisition::begin("/cache", false).advance(Ok(()));
    let a = a.advance(Err("read-only file system".to_string()));
    match a {
        Acquisition::Failed(e) => {
            assert_eq!(e, SetupError::CreateSentinel("read-only file system".to_string()))
        }
        _ => panic!("expected a setup error"),
    }
}

#[test]
fn failed_lock_request_still_yields_guard() {
    let l = full_cycle("/cache", false, Err("no locks on this file system".to_string()));
    assert_eq!(l.sentinel(), "/cache/sm.lock");
    assert!(!l.is_exclusive());
    assert_eq!(
        l.exclusivity(),
        &Exclusivity::Unavailable("no locks on this file system".to_string())
    );
    assert!(!l.is_released());
}

#[test]
fn acquired_guard_stays_acquired() {
    let a = Acquisition::begin("/cache", false).advance(Ok(())).advance(Ok(())).advance(Ok(()));
    assert!(a.is_finished());
    let l = into_lock(a.advance(Err("late".to_string())));
    assert!(l.is_exclusive());
}

#[test]
fn release_marks_released_and_may_repeat() {
    let mut l = full_cycle("/cache", false, Ok(()));
    let both = Teardown { remove_sentinel: true, unlock: true };
    assert_eq!(l.on_drop(), both);
    assert_eq!(l.release(), both);
    assert!(l.is_released());
    assert_eq!(l.sentinel(), "/cache/sm.lock");
    assert_eq!(l.release(), both);
    assert!(l.is_released());
    assert_eq!(l.on_drop(), Teardown { remove_sentinel: false, unlock: true });
}

#[test]
fn sequential_cycles_both_acquire() {
    let mut first = full_cycle("/cache/sub/out.bin", true, Ok(()));
    first.release();
    let second = full_cycle("/cache/sub/out.bin", true, Ok(()));
    assert_eq!(first.sentinel(), second.sentinel());
    assert!(second.is_exclusive());
    assert!(!second.is_released());
}

#[test]
fn held_guard_reads_unreleased_repeatedly() {
    let l = full_cycle("/cache", false, Ok(()));
    assert!(!l.is_released());
    assert!(!l.is_released());
    assert!(!l.is_released());
}
