use qvm::config::schema::{
    Display, Firmware, Forwards, Hardware, Meta, Network, Paths, Spice, VmConfig, Vnc,
};
use qvm::error::QvmError;
use qvm::utils::paths::locate_vm_dir;
use qvm::vm::config::{load_failure, LoadFault};
use qvm::vm::manager::{
    is_affirmative, DeleteAction, DeleteEvent, DeleteStage, Deletion, VmManager,
};

fn config(disk: &str, efi_vars: &str) -> VmConfig {
    VmConfig {
        meta: Meta {
            version: 1,
            generated: "2024-05-01T10:00:00+00:00".to_string(),
            name: "demo".to_string(),
            arch: "aarch64".to_string(),
            uuid: "test-uuid".to_string(),
        },
        paths: Paths {
            root: "/home/alice/qvm/demo.qvm".to_string(),
            disk: disk.to_string(),
            efi_vars: efi_vars.to_string(),
        },
        hardware: Hardware {
            cpu_model: "host".to_string(),
            sockets: 1,
            cores: 4,
            threads: 1,
            mem_mb: 4096,
            machine: "virt".to_string(),
            accel: "hvf".to_string(),
            mac: "52:54:00:12:34:56".to_string(),
        },
        firmware: Firmware {
            code: "/path/to/code.fd".to_string(),
            vars_template: "/path/to/vars.fd".to_string(),
        },
        network: Network {
            mode: "vmnet-shared".to_string(),
            bridge_if: "en0".to_string(),
            forwards: Forwards::default(),
        },
        display: Display {
            mode: "cocoa".to_string(),
            vnc: Vnc {
                use_unix: false,
                host: "127.0.0.1".to_string(),
                display: 1,
                sock: "vnc.sock".to_string(),
            },
            spice: Spice {
                use_unix: false,
                addr: "127.0.0.1".to_string(),
                port: 5930,
                disable_ticketing: true,
                sock: "spice.sock".to_string(),
            },
        },
    }
}

fn begin(force: bool) -> Deletion {
    let (d, _) =
        Deletion::begin("demo", force, Ok("/home/alice/qvm/demo.qvm".to_string())).unwrap();
    d
}

#[test]
fn affirmative_answers() {
    for s in ["y", "Y", "yes", "YES", "Yes", "yEs", " y\n", "\tyes \r\n", "yeS"] {
        assert!(is_affirmative(s), "{s:?}");
    }
}

#[test]
fn other_answers_cancel() {
    for s in ["", "\n", "n", "no", "ye", "yess", "y es", "yes!", "ja", "1", "true", "yy", "ýes"] {
        assert!(!is_affirmative(s), "{s:?}");
    }
}

#[test]
fn affirmative_agrees_with_lower_casing() {
    let cases = [
        "y", "Y", "yes", "YES", "yEs", " yes ", "n", "", "yes\n", "ye", "ÿ", "Ÿ", "yeſ", "YEſ",
        "\u{212a}", "y\u{301}", "ｙ", "ＹＥＳ", "y\u{a0}", "\u{3000}Y\u{2003}",
    ];
    for s in cases {
        let expected = matches!(s.trim().to_lowercase().as_str(), "y" | "yes");
        assert_eq!(is_affirmative(s), expected, "{s:?}");
    }
}

#[test]
fn new_manager() {
    assert_eq!(VmManager::new(), VmManager);
    assert_eq!(VmManager::default(), VmManager::new());
}

#[test]
fn test_delete_nonexistent_vm() {
    let r = VmManager::new().delete_vm("nonexistent-vm", true);
    assert!(r.unwrap_err().message().contains("VM 'nonexistent-vm' not found"));
}

#[test]
fn deletion_of_a_missing_machine_names_it() {
    for force in [true, false] {
        let lookup = locate_vm_dir("ghost", Some("/home/alice".to_string()), false);
        match Deletion::begin("ghost", force, lookup) {
            Err(e) => {
                assert!(matches!(&e, QvmError::NotFound { name, .. } if name == "ghost"));
                assert!(e.message().contains("ghost"));
                assert_eq!(e.message(), "VM 'ghost' not found in /home/alice/qvm");
            }
            Ok(_) => panic!("a missing machine must not be deleted"),
        }
    }
}

#[test]
fn deletion_begins_with_the_liveness_check() {
    let (d, action) =
        Deletion::begin("demo", false, Ok("/home/alice/qvm/demo.qvm".to_string())).unwrap();
    assert_eq!(d.stage, DeleteStage::AwaitLiveness);
    assert_eq!(d.dir, "/home/alice/qvm/demo.qvm");
    assert!(matches!(&action, DeleteAction::CheckLiveness { name } if name == "demo"));
}

#[test]
fn deletion_of_a_running_machine_fails() {
    for force in [true, false] {
        let (d, action) = begin(force).advance(DeleteEvent::Liveness { running: true });
        assert_eq!(d.stage, DeleteStage::Finished);
        match action {
            DeleteAction::Fail(e) => {
                assert!(matches!(&e, QvmError::VmRunning { name } if name == "demo"));
                assert_eq!(
                    e.message(),
                    "Cannot delete VM 'demo': VM is currently running. Stop it first with 'qvm stop demo'"
                );
            }
            other => panic!("expected Fail, got {:?}", other),
        }
        // Whatever follows, nothing is removed.
        let (d, action) = d.advance(DeleteEvent::Loaded(config("disk.qcow2", "efi_vars.fd")));
        assert!(matches!(action, DeleteAction::Fail(_)));
        let (d, action) = d.advance(DeleteEvent::Answered { line: "yes".to_string() });
        assert!(matches!(action, DeleteAction::Fail(_)));
        let (_, action) = d.advance(DeleteEvent::Removed);
        assert!(matches!(action, DeleteAction::Fail(_)));
    }
}

#[test]
fn deletion_needs_the_descriptor() {
    let (d, action) = begin(true).advance(DeleteEvent::Liveness { running: false });
    assert_eq!(d.stage, DeleteStage::AwaitDescriptor);
    assert!(matches!(&action, DeleteAction::LoadDescriptor { name } if name == "demo"));
    let (d, action) =
        d.advance(DeleteEvent::Failed(QvmError::Parse { detail: "expected value".to_string() }));
    assert_eq!(d.stage, DeleteStage::Finished);
    match action {
        DeleteAction::Fail(e) => {
            assert!(matches!(&e, QvmError::Parse { .. }));
            assert_eq!(e.message(), "expected value");
        }
        other => panic!("expected Fail, got {:?}", other),
    }
}

#[test]
fn forced_deletion_removes_without_asking() {
    let (d, _) = begin(true).advance(DeleteEvent::Liveness { running: false });
    let (d, action) = d.advance(DeleteEvent::Loaded(config("disk.qcow2", "efi_vars.fd")));
    assert_eq!(d.stage, DeleteStage::AwaitRemoval);
    assert!(matches!(&action, DeleteAction::RemoveTree { dir } if dir == "/home/alice/qvm/demo.qvm"));
    let (d, action) = d.advance(DeleteEvent::Removed);
    assert_eq!(d.stage, DeleteStage::Finished);
    assert!(matches!(&action, DeleteAction::ReportDeleted { name } if name == "demo"));
}

#[test]
fn deletion_shows_what_is_deleted() {
    let (d, _) = begin(false).advance(DeleteEvent::Liveness { running: false });
    let (d, action) = d.advance(DeleteEvent::Loaded(config("disk.qcow2", "/srv/efi_vars.fd")));
    assert_eq!(d.stage, DeleteStage::AwaitAnswer);
    match action {
        DeleteAction::Confirm { name, dir, disk, efi_vars } => {
            assert_eq!(name, "demo");
            assert_eq!(dir, "/home/alice/qvm/demo.qvm");
            assert_eq!(disk, "/home/alice/qvm/demo.qvm/disk.qcow2");
            assert_eq!(efi_vars, "/srv/efi_vars.fd");
        }
        other => panic!("expected Confirm, got {:?}", other),
    }
}

#[test]
fn confirmed_deletion_removes() {
    let (d, _) = begin(false).advance(DeleteEvent::Liveness { running: false });
    let (d, _) = d.advance(DeleteEvent::Loaded(config("disk.qcow2", "efi_vars.fd")));
    let (d, action) = d.advance(DeleteEvent::Answered { line: "Yes\n".to_string() });
    assert_eq!(d.stage, DeleteStage::AwaitRemoval);
    assert!(matches!(&action, DeleteAction::RemoveTree { dir } if dir == "/home/alice/qvm/demo.qvm"));
}

#[test]
fn unconfirmed_deletion_cancels_without_failure() {
    for line in ["\n", "n\n", "nope", ""] {
        let (d, _) = begin(false).advance(DeleteEvent::Liveness { running: false });
        let (d, _) = d.advance(DeleteEvent::Loaded(config("disk.qcow2", "efi_vars.fd")));
        let (d, action) = d.advance(DeleteEvent::Answered { line: line.to_string() });
        assert_eq!(d.stage, DeleteStage::Finished);
        assert!(matches!(action, DeleteAction::ReportCancelled));
        let (_, action) = d.advance(DeleteEvent::Removed);
        assert!(matches!(action, DeleteAction::Fail(_)));
    }
}

#[test]
fn deletion_fails_where_removal_fails() {
    let (d, _) = begin(true).advance(DeleteEvent::Liveness { running: false });
    let (d, _) = d.advance(DeleteEvent::Loaded(config("disk.qcow2", "efi_vars.fd")));
    let (d, action) =
        d.advance(DeleteEvent::Failed(QvmError::Io { detail: "permission denied".to_string() }));
    assert_eq!(d.stage, DeleteStage::Finished);
    assert!(matches!(&action, DeleteAction::Fail(QvmError::Io { detail }) if detail == "permission denied"));
}

#[test]
fn deletion_rejects_an_event_out_of_turn() {
    let (d, action) = begin(true).advance(DeleteEvent::Removed);
    assert_eq!(d.stage, DeleteStage::Finished);
    assert!(matches!(&action, DeleteAction::Fail(QvmError::Io { detail }) if detail == "event out of turn"));

    let (d, action) = begin(false).advance(DeleteEvent::Answered { line: "y".to_string() });
    assert_eq!(d.stage, DeleteStage::Finished);
    assert!(matches!(action, DeleteAction::Fail(_)));
}

#[test]
fn load_failure_for_each_fault() {
    match load_failure("demo", "/home/alice/qvm", LoadFault::Absent) {
        QvmError::NotFound { name, root } => {
            assert_eq!(name, "demo");
            assert_eq!(root, "/home/alice/qvm");
        }
        other => panic!("expected NotFound, got {:?}", other),
    }
    match load_failure(
        "demo",
        "/home/alice/qvm",
        LoadFault::Malformed { detail: "missing field `meta`".to_string() },
    ) {
        QvmError::Parse { detail } => assert_eq!(detail, "missing field `meta`"),
        other => panic!("expected Parse, got {:?}", other),
    }
    match load_failure(
        "demo",
        "/home/alice/qvm",
        LoadFault::Unreadable { detail: "permission denied".to_string() },
    ) {
        QvmError::Io { detail } => assert_eq!(detail, "permission denied"),
        other => panic!("expected Io, got {:?}", other),
    }
}

#[test]
fn deletion_without_descriptor_is_a_parse_failure() {
    let faults = [
        (LoadFault::Absent, "VM 'demo' not found in /home/alice/qvm"),
        (LoadFault::Unreadable { detail: "permission denied".to_string() }, "permission denied"),
        (LoadFault::Malformed { detail: "expected value".to_string() }, "expected value"),
    ];
    for (fault, text) in faults {
        for force in [true, false] {
            let (d, _) = begin(force).advance(DeleteEvent::Liveness { running: false });
            let e = load_failure("demo", "/home/alice/qvm", fault.clone());
            let (d, action) = d.advance(DeleteEvent::Failed(e));
            assert_eq!(d.stage, DeleteStage::Finished);
            match action {
                DeleteAction::Fail(QvmError::Parse { detail }) => assert_eq!(detail, text),
                other => panic!("expected a Parse failure, got {:?}", other),
            }
            let (_, action) = d.advance(DeleteEvent::Removed);
            assert!(matches!(action, DeleteAction::Fail(_)));
        }
    }
}

#[test]
fn deletion_keeps_the_kind_of_other_failures() {
    let (d, action) = begin(true).advance(DeleteEvent::Failed(QvmError::Io {
        detail: "cannot run ps".to_string(),
    }));
    assert_eq!(d.stage, DeleteStage::Finished);
    assert!(matches!(&action, DeleteAction::Fail(QvmError::Io { detail }) if detail == "cannot run ps"));
}
