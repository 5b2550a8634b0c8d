use qvm::error::QvmError;
use qvm::utils::paths::{
    conf_path, find_vm_dir, locate_vm_dir, qvm_home, resolve_under_root, storage_root_for,
    storage_root_in, vm_dir_in, vm_root_in,
};
use std::path::PathBuf;

#[test]
fn lib_test_resolve_under_root() {
    let root = PathBuf::from("/tmp/test");

    // Test absolute path
    let abs_path = PathBuf::from("/absolute/path");
    assert_eq!(
        PathBuf::from(resolve_under_root(root.to_str().unwrap(), abs_path.to_str().unwrap())),
        abs_path
    );

    // Test relative path
    let rel_path = PathBuf::from("relative/path");
    assert_eq!(
        PathBuf::from(resolve_under_root(root.to_str().unwrap(), rel_path.to_str().unwrap())),
        root.join("relative/path")
    );
}

#[test]
fn main_test_resolve_under_root() {
    let root = PathBuf::from("/tmp/test");

    let abs_path = PathBuf::from("/absolute/path");
    assert_eq!(
        PathBuf::from(resolve_under_root(root.to_str().unwrap(), abs_path.to_str().unwrap())),
        abs_path
    );

    let rel_path = PathBuf::from("relative/path");
    assert_eq!(
        PathBuf::from(resolve_under_root(root.to_str().unwrap(), rel_path.to_str().unwrap())),
        root.join("relative/path")
    );
}

#[test]
fn lib_test_conf_path() {
    let root = PathBuf::from("/tmp/test");
    assert_eq!(PathBuf::from(conf_path(root.to_str().unwrap())), root.join("vm.json"));
}

#[test]
fn main_test_conf_path() {
    let root = PathBuf::from("/tmp/test");
    assert_eq!(PathBuf::from(conf_path(root.to_str().unwrap())), root.join("vm.json"));
}

#[test]
fn lib_test_qvm_home() {
    let home = qvm_home().unwrap();
    assert!(home.contains("qvm"));
}

#[test]
fn main_test_qvm_home() {
    let home = qvm_home().unwrap();
    assert!(home.contains("qvm"));
}

#[test]
fn lib_test_find_vm_dir_nonexistent() {
    let result = find_vm_dir("nonexistent-vm-test-12345");
    assert!(result.is_err());
    assert!(result.unwrap_err().message().contains("not found"));
}

#[test]
fn main_test_find_vm_dir_nonexistent() {
    let result = find_vm_dir("nonexistent-vm-test-12345");
    assert!(result.is_err());
    assert!(result.unwrap_err().message().contains("not found"));
}

#[test]
fn resolve_under_root_exact_text() {
    assert_eq!(resolve_under_root("/tmp/test", "/absolute/path"), "/absolute/path");
    assert_eq!(resolve_under_root("/tmp/test", "relative/path"), "/tmp/test/relative/path");
    assert_eq!(resolve_under_root("/tmp/test", "disk.qcow2"), "/tmp/test/disk.qcow2");
}

#[test]
fn conf_path_is_vm_json_under_the_root() {
    assert_eq!(conf_path("/home/alice/qvm/demo.qvm"), "/home/alice/qvm/demo.qvm/vm.json");
    assert_ne!(conf_path("/tmp/test"), "/tmp/test");
}

#[test]
fn storage_root_is_qvm_under_home() {
    assert_eq!(storage_root_in("/home/alice"), "/home/alice/qvm");
    assert_eq!(
        PathBuf::from(storage_root_in("/home/alice")),
        PathBuf::from("/home/alice").join("qvm")
    );
}

#[test]
fn storage_root_needs_a_home() {
    assert_eq!(storage_root_for(Some("/home/alice".to_string())).unwrap(), "/home/alice/qvm");
    assert!(matches!(storage_root_for(None), Err(QvmError::Environment)));
    assert_eq!(storage_root_for(None).unwrap_err().message(), "no home directory found");
}

#[test]
fn vm_root_is_named_after_the_machine() {
    assert_eq!(vm_root_in("/home/alice", "demo"), "/home/alice/qvm/demo.qvm");
    assert_eq!(
        PathBuf::from(vm_root_in("/home/alice", "demo")),
        PathBuf::from("/home/alice").join("qvm").join("demo.qvm")
    );
}

#[test]
fn vm_dir_under_a_storage_root() {
    assert_eq!(vm_dir_in("/srv/qvm", "demo"), "/srv/qvm/demo.qvm");
    assert_eq!(vm_dir_in("/srv/qvm/", "a.b"), "/srv/qvm/a.b.qvm");
}

#[test]
fn locate_vm_dir_for_each_answer() {
    let found = locate_vm_dir("demo", Some("/home/alice".to_string()), true);
    assert_eq!(found.unwrap(), "/home/alice/qvm/demo.qvm");

    let missing = locate_vm_dir("demo", Some("/home/alice".to_string()), false);
    match missing {
        Err(QvmError::NotFound { name, root }) => {
            assert_eq!(name, "demo");
            assert_eq!(root, "/home/alice/qvm");
        }
        other => panic!("expected NotFound, got {:?}", other),
    }

    assert!(matches!(locate_vm_dir("demo", None, true), Err(QvmError::Environment)));
    assert!(matches!(locate_vm_dir("demo", None, false), Err(QvmError::Environment)));
}

#[test]
fn not_found_names_the_machine_and_the_storage_root() {
    let e = locate_vm_dir("demo", Some("/home/alice".to_string()), false).unwrap_err();
    assert_eq!(e.message(), "VM 'demo' not found in /home/alice/qvm");
}

#[test]
fn find_vm_dir_agrees_with_the_home_directory() {
    let home = qvm_home().unwrap();
    match find_vm_dir("nonexistent-vm-test-12345") {
        Err(QvmError::NotFound { name, root }) => {
            assert_eq!(name, "nonexistent-vm-test-12345");
            assert_eq!(root, home);
        }
        other => panic!("expected NotFound, got {:?}", other),
    }
}

#[test]
fn find_vm_dir_wants_a_directory() {
    let storage = qvm_home().unwrap();
    let storage = std::path::Path::new(&storage);
    // The storage root is made for the test where there is none, and removed with it.
    let _made = if storage.is_dir() {
        None
    } else {
        let Some(home) = storage.parent() else { return };
        match tempfile::Builder::new().prefix("qvm").rand_bytes(0).tempdir_in(home) {
            Ok(dir) => Some(dir),
            Err(_) => return,
        }
    };

    let Ok(file) = tempfile::Builder::new().prefix("plain-file-").suffix(".qvm").tempfile_in(storage)
    else {
        return;
    };
    let name = file.path().file_stem().unwrap().to_str().unwrap().to_string();
    match find_vm_dir(&name) {
        Err(QvmError::NotFound { name: named, .. }) => assert_eq!(named, name),
        other => panic!("a plain file is no machine, got {:?}", other),
    }

    let Ok(dir) = tempfile::Builder::new().prefix("machine-").suffix(".qvm").tempdir_in(storage)
    else {
        return;
    };
    let name = dir.path().file_stem().unwrap().to_str().unwrap().to_string();
    assert_eq!(PathBuf::from(find_vm_dir(&name).unwrap()), dir.path());
}
