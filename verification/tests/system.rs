use qvm::error::QvmError;
use qvm::utils::system::{
    candidates_for, is_running_after, liveness_step, now_utc, parse_pid, pick_qemu_bin,
    pid_marker_path, select_binary, BinaryProbe, LivenessStep, MarkerRead,
};
use qvm::vm::launch::_cpu_total;

#[test]
fn lib_test_now_utc() {
    let timestamp = now_utc();
    println!("Timestamp: {}", timestamp);
    assert!(timestamp.contains("T"));
    // The timestamp should end with Z (UTC) or +00:00
    assert!(timestamp.ends_with("Z") || timestamp.ends_with("+00:00"));
}

#[test]
fn main_test_now_utc() {
    let timestamp = now_utc();
    println!("Timestamp: {}", timestamp);
    assert!(timestamp.contains("T"));
    assert!(timestamp.ends_with("Z") || timestamp.ends_with("+00:00"));
}

#[test]
fn lib_test_cpu_total() {
    assert_eq!(_cpu_total(2, 4, 2), 16);
    assert_eq!(_cpu_total(1, 8, 1), 8);
    assert_eq!(_cpu_total(0, 4, 2), 0);
}

#[test]
fn main_test_cpu_total() {
    assert_eq!(_cpu_total(2, 4, 2), 16);
    assert_eq!(_cpu_total(1, 8, 1), 8);
    assert_eq!(_cpu_total(0, 4, 2), 0);
}

#[test]
fn cpu_total_saturates() {
    assert_eq!(_cpu_total(u32::MAX, 2, 1), u32::MAX);
    assert_eq!(_cpu_total(65536, 65536, 1), u32::MAX);
    assert_eq!(_cpu_total(65536, 65536, 0), 0);
    assert_eq!(_cpu_total(65535, 65537, 1), u32::MAX);
    assert_eq!(_cpu_total(1, 1, u32::MAX), u32::MAX);
    for (s, c, t) in [(3u32, 5u32, 7u32), (65536, 65535, 1), (u32::MAX, u32::MAX, u32::MAX)] {
        assert_eq!(_cpu_total(s, c, t), s.saturating_mul(c).saturating_mul(t));
    }
}

#[test]
fn lib_test_pick_qemu_bin() {
    // Test supported architectures
    let result_aarch64 = pick_qemu_bin("aarch64");
    let result_x86_64 = pick_qemu_bin("x86_64");

    // At least one should work (depending on system)
    if result_aarch64.is_err() && result_x86_64.is_err() {
        // This is expected on systems without QEMU
        println!("QEMU not found (expected on some test systems)");
    }

    // Test unsupported architecture
    let result = pick_qemu_bin("unsupported");
    assert!(result.is_err());
    assert!(result.unwrap_err().message().contains("Unsupported arch"));
}

#[test]
fn main_test_pick_qemu_bin() {
    let result_aarch64 = pick_qemu_bin("aarch64");
    let result_x86_64 = pick_qemu_bin("x86_64");

    if result_aarch64.is_err() && result_x86_64.is_err() {
        println!("QEMU not found (expected on some test systems)");
    }

    let result = pick_qemu_bin("unsupported");
    assert!(result.is_err());
    assert!(result.unwrap_err().message().contains("Unsupported arch"));
}

#[test]
fn pick_qemu_bin_rejects_every_other_arch() {
    for arch in ["unsupported-arch", "", "arm", "AARCH64", "x86-64", "aarch64 "] {
        match pick_qemu_bin(arch) {
            Err(QvmError::UnsupportedArch { arch: named }) => assert_eq!(named, arch),
            other => panic!("expected UnsupportedArch, got {:?}", other),
        }
    }
    assert_eq!(
        pick_qemu_bin("unsupported-arch").unwrap_err().message(),
        "Unsupported arch 'unsupported-arch'"
    );
}

#[test]
fn pick_qemu_bin_finds_a_file_or_reports_the_arch() {
    for arch in ["aarch64", "x86_64"] {
        match pick_qemu_bin(arch) {
            Ok(path) => assert!(std::path::Path::new(&path).is_file()),
            Err(QvmError::BinaryNotFound { arch: named }) => assert_eq!(named, arch),
            other => panic!("unexpected outcome {:?}", other),
        }
    }
}

#[test]
fn candidates_in_order() {
    assert_eq!(
        candidates_for("aarch64"),
        vec!["/run/current-system/sw/bin/qemu-system-aarch64", "qemu-system-aarch64"]
    );
    assert_eq!(
        candidates_for("x86_64"),
        vec!["/run/current-system/sw/bin/qemu-system-x86_64", "qemu-system-x86_64"]
    );
    assert!(candidates_for("riscv64").is_empty());
}

fn probe(path: &str, is_file: bool) -> BinaryProbe {
    BinaryProbe { path: path.to_string(), is_file }
}

#[test]
fn select_binary_takes_the_first_file() {
    let both = vec![probe("/run/qemu", true), probe("/usr/bin/qemu", true)];
    assert_eq!(select_binary("aarch64", &both).unwrap(), "/run/qemu");

    let second = vec![probe("/run/qemu", false), probe("/usr/bin/qemu", true)];
    assert_eq!(select_binary("x86_64", &second).unwrap(), "/usr/bin/qemu");
}

#[test]
fn select_binary_reports_what_is_missing() {
    let none = vec![probe("/run/qemu", false), probe("qemu-system-aarch64", false)];
    match select_binary("aarch64", &none) {
        Err(QvmError::BinaryNotFound { arch }) => assert_eq!(arch, "aarch64"),
        other => panic!("expected BinaryNotFound, got {:?}", other),
    }
    assert_eq!(
        select_binary("x86_64", &Vec::new()).unwrap_err().message(),
        "qemu-system-x86_64 not found (Nix)"
    );
}

#[test]
fn select_binary_checks_the_arch_first() {
    let found = vec![probe("/run/qemu", true)];
    match select_binary("mips", &found) {
        Err(QvmError::UnsupportedArch { arch }) => assert_eq!(arch, "mips"),
        other => panic!("expected UnsupportedArch, got {:?}", other),
    }
}

#[test]
fn pid_marker_is_vm_pid_under_the_directory() {
    assert_eq!(pid_marker_path("/home/alice/qvm/demo.qvm"), "/home/alice/qvm/demo.qvm/vm.pid");
}

#[test]
fn parse_pid_ignores_white_space_around() {
    assert_eq!(parse_pid("1234\n"), Some(1234));
    assert_eq!(parse_pid("  1234  "), Some(1234));
    assert_eq!(parse_pid("+5"), Some(5));
    assert_eq!(parse_pid(""), None);
    assert_eq!(parse_pid("\n"), None);
    assert_eq!(parse_pid("12 34"), None);
    assert_eq!(parse_pid("pid"), None);
    assert_eq!(parse_pid("-3"), None);
    assert_eq!(parse_pid("4294967296"), None);
    for s in ["77\n", " 0", "x", "1.5", "\t+9\r\n"] {
        assert_eq!(parse_pid(s), s.trim().parse::<u32>().ok(), "{s:?}");
    }
}

#[test]
fn liveness_without_marker_is_not_running() {
    assert_eq!(liveness_step(&MarkerRead::Missing), LivenessStep::NotRunning);
}

#[test]
fn liveness_with_stale_marker_discards_it() {
    assert_eq!(liveness_step(&MarkerRead::Unreadable), LivenessStep::DiscardMarker);
    assert_eq!(
        liveness_step(&MarkerRead::Content("not a pid".to_string())),
        LivenessStep::DiscardMarker
    );
    assert_eq!(liveness_step(&MarkerRead::Content(String::new())), LivenessStep::DiscardMarker);
}

#[test]
fn liveness_with_pid_asks_the_process_table() {
    assert_eq!(
        liveness_step(&MarkerRead::Content("4242\n".to_string())),
        LivenessStep::QueryProcess(4242)
    );
}

#[test]
fn running_only_where_the_process_exists() {
    assert!(is_running_after(LivenessStep::QueryProcess(1), true));
    assert!(!is_running_after(LivenessStep::QueryProcess(1), false));
    assert!(!is_running_after(LivenessStep::NotRunning, true));
    assert!(!is_running_after(LivenessStep::DiscardMarker, true));
    assert!(!is_running_after(LivenessStep::NotRunning, false));
}

#[test]
fn now_utc_ends_with_the_offset_of_utc() {
    for _ in 0..20 {
        let timestamp = now_utc();
        assert!(timestamp.ends_with("+00:00"), "{timestamp}");
        assert!(timestamp.contains('T'), "{timestamp}");
    }
}
