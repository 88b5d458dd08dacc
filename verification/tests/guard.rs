use lorri::nix::{GcRootTempDir, StorePath};

#[test]
fn dropping_guard_removes_directory() {
    let dir = tempfile::TempDir::new().unwrap();
    let dir_path = dir.path().to_path_buf();
    assert!(dir_path.exists());
    let guard = GcRootTempDir::new(dir);
    assert!(dir_path.exists());
    drop(guard);
    assert!(!dir_path.exists());
}

#[test]
fn store_path_value_outlives_guard() {
    let dir = tempfile::TempDir::new().unwrap();
    let guard = GcRootTempDir::new(dir);
    let path = StorePath::from(b"/nix/store/eeee-pkg".to_vec());
    drop(guard);
    // The in-memory value stays usable; only the filesystem protection of
    // the build outputs is gone.
    assert_eq!(path.as_path(), &b"/nix/store/eeee-pkg".to_vec());
}
