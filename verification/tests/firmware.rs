use qvm::error::QvmError;
use qvm::vm::firmware::{
    derive_share_dir, get_default_firmware_paths, locate_firmware_from_qemu, pairs_for,
    search_dirs_for, select_firmware, DirProbe, PairProbe,
};

fn pair(code: &str, vars: &str, complete: bool) -> PairProbe {
    PairProbe { code: code.to_string(), vars: vars.to_string(), complete }
}

fn dir(path: &str, is_dir: bool, found: Vec<PairProbe>) -> DirProbe {
    DirProbe { dir: path.to_string(), is_dir, found }
}

#[test]
fn default_firmware_per_arch() {
    assert_eq!(
        get_default_firmware_paths("aarch64"),
        (
            "/run/current-system/sw/share/qemu/edk2-aarch64-code.fd".to_string(),
            "/run/current-system/sw/share/qemu/edk2-arm-vars.fd".to_string()
        )
    );
    assert_eq!(
        get_default_firmware_paths("x86_64"),
        (
            "/run/current-system/sw/share/qemu/OVMF_CODE.fd".to_string(),
            "/run/current-system/sw/share/qemu/OVMF_VARS.fd".to_string()
        )
    );
    assert_eq!(get_default_firmware_paths("other"), get_default_firmware_paths("x86_64"));
}

#[test]
fn pairs_in_declaration_order() {
    let s = |a: &str, b: &str| (a.to_string(), b.to_string());
    assert_eq!(
        pairs_for("aarch64"),
        vec![
            s("edk2-aarch64-code.fd", "edk2-arm-vars.fd"),
            s("edk2-aarch64-code.fd", "edk2-aarch64-vars.fd"),
        ]
    );
    assert_eq!(
        pairs_for("x86_64"),
        vec![
            s("OVMF_CODE.fd", "OVMF_VARS.fd"),
            s("edk2-x86_64-code.fd", "edk2-x86_64-vars.fd"),
            s("edk2-x86_64-code.fd", "edk2-i386-vars.fd"),
        ]
    );
    assert!(pairs_for("sparc").is_empty());
}

#[test]
fn share_dir_by_substitution() {
    let bin = "/nix/store/abc-qemu-8.2/bin/qemu-system-aarch64";
    assert_eq!(derive_share_dir(bin, bin, "aarch64"), "/nix/store/abc-qemu-8.2/share/qemu");

    let bin = "/nix/store/abc-qemu-8.2/bin/qemu-system-x86_64";
    assert_eq!(derive_share_dir(bin, "/usr/bin/q", "x86_64"), "/nix/store/abc-qemu-8.2/share/qemu");
}

#[test]
fn share_dir_of_other_arch_is_left_alone() {
    // The pattern is there, the name of this architecture is not: nothing is replaced.
    let bin = "/nix/store/abc-qemu-8.2/bin/qemu-system-x86_64";
    assert_eq!(derive_share_dir(bin, bin, "aarch64"), bin);
    let bin = "/opt/bin/qemu-system-riscv64";
    assert_eq!(derive_share_dir(bin, bin, "x86_64"), bin);
}

#[test]
fn share_dir_beside_the_grandparent() {
    assert_eq!(derive_share_dir("/opt/tools/bin/qemu", "/opt/tools/bin/qemu", "aarch64"),
        "/opt/tools/share/qemu");
    // The executable as given decides, not the resolved one.
    assert_eq!(derive_share_dir("/real/place/qemu", "/opt/tools/bin/qemu", "x86_64"),
        "/opt/tools/share/qemu");
    assert_eq!(derive_share_dir("/qemu", "/bin/qemu", "aarch64"), "/share/qemu");
}

#[test]
fn share_dir_without_grandparent_is_the_system_one() {
    assert_eq!(derive_share_dir("/qemu", "/qemu", "aarch64"), "/run/current-system/sw/share/qemu");
    assert_eq!(derive_share_dir("", "", "x86_64"), "/run/current-system/sw/share/qemu");
    assert_eq!(derive_share_dir("/", "/", "x86_64"), "/run/current-system/sw/share/qemu");
}

#[test]
fn share_dir_of_a_bare_name() {
    // A bare name has the empty path as its parent, and that has none.
    assert_eq!(derive_share_dir("qemu", "qemu", "aarch64"), "/run/current-system/sw/share/qemu");
    assert_eq!(derive_share_dir("bin/qemu", "bin/qemu", "aarch64"), "share/qemu");
}

#[test]
fn search_dirs_in_order() {
    let entries = vec![
        "abc-qemu-8.2".to_string(),
        "def-glibc-2.38".to_string(),
        "ghi-qemu-utils-1".to_string(),
        "qemu-9".to_string(),
    ];
    assert_eq!(
        search_dirs_for("/derived/share/qemu".to_string(), &entries),
        vec![
            "/derived/share/qemu",
            "/run/current-system/sw/share/qemu",
            "/nix/var/nix/profiles/system/sw/share/qemu",
            "/nix/store/abc-qemu-8.2/share/qemu",
            "/nix/store/ghi-qemu-utils-1/share/qemu",
        ]
    );
}

#[test]
fn search_dirs_without_store() {
    assert_eq!(
        search_dirs_for("/d".to_string(), &Vec::new()),
        vec!["/d", "/run/current-system/sw/share/qemu", "/nix/var/nix/profiles/system/sw/share/qemu"]
    );
}

#[test]
fn select_firmware_takes_the_first_directory_then_the_first_pair() {
    let probes = vec![
        dir("/a", false, vec![pair("/a/c1", "/a/v1", true)]),
        dir("/b", true, vec![pair("/b/c1", "/b/v1", false), pair("/b/c2", "/b/v2", true)]),
        dir("/c", true, vec![pair("/c/c1", "/c/v1", true)]),
    ];
    assert_eq!(
        select_firmware("aarch64", &probes).unwrap(),
        ("/b/c2".to_string(), "/b/v2".to_string())
    );
}

#[test]
fn select_firmware_prefers_the_earlier_pair() {
    let probes = vec![dir(
        "/b",
        true,
        vec![pair("/b/c1", "/b/v1", true), pair("/b/c2", "/b/v2", true)],
    )];
    assert_eq!(
        select_firmware("x86_64", &probes).unwrap(),
        ("/b/c1".to_string(), "/b/v1".to_string())
    );
}

#[test]
fn select_firmware_skips_what_is_no_directory() {
    let probes = vec![dir("/a", false, vec![pair("/a/c1", "/a/v1", true)])];
    match select_firmware("aarch64", &probes) {
        Err(QvmError::FirmwareNotFound { arch }) => assert_eq!(arch, "aarch64"),
        other => panic!("expected FirmwareNotFound, got {:?}", other),
    }
}

#[test]
fn select_firmware_reports_the_arch() {
    let e = select_firmware("x86_64", &Vec::new()).unwrap_err();
    assert_eq!(e.message(), "UEFI firmware not found in Nix paths for x86_64");
    let probes = vec![dir("/b", true, vec![pair("/b/c1", "/b/v1", false)])];
    assert!(matches!(select_firmware("x86_64", &probes), Err(QvmError::FirmwareNotFound { .. })));
}

#[test]
fn select_firmware_checks_the_arch_first() {
    let probes = vec![dir("/b", true, vec![pair("/b/c1", "/b/v1", true)])];
    match select_firmware("ppc64", &probes) {
        Err(QvmError::UnsupportedArch { arch }) => assert_eq!(arch, "ppc64"),
        other => panic!("expected UnsupportedArch, got {:?}", other),
    }
}

#[test]
fn locate_firmware_rejects_every_other_arch() {
    match locate_firmware_from_qemu("/usr/bin/qemu-system-mips", "mips", &Vec::new()) {
        Err(QvmError::UnsupportedArch { arch }) => assert_eq!(arch, "mips"),
        other => panic!("expected UnsupportedArch, got {:?}", other),
    }
}

fn make_dir(parent: &std::path::Path, name: &str) -> std::path::PathBuf {
    tempfile::Builder::new().prefix(name).rand_bytes(0).tempdir_in(parent).unwrap().keep()
}

fn make_file(parent: &std::path::Path, name: &str) {
    tempfile::Builder::new().prefix(name).rand_bytes(0).tempfile_in(parent).unwrap().keep().unwrap();
}

#[test]
fn locate_firmware_beside_the_executable() {
    let top = tempfile::tempdir().unwrap();
    let top_real = top.path().canonicalize().unwrap();
    let bin = make_dir(&top_real, "bin");
    let share = make_dir(&top_real, "share");
    let qemu = make_dir(&share, "qemu");
    make_file(&bin, "qemu-system-aarch64");
    make_file(&qemu, "edk2-aarch64-code.fd");
    make_file(&qemu, "edk2-aarch64-vars.fd");

    let exe = bin.join("qemu-system-aarch64");
    let found = locate_firmware_from_qemu(exe.to_str().unwrap(), "aarch64", &Vec::new()).unwrap();
    // The first pair lacks its variables file, so the second pair is taken.
    assert_eq!(found.0, qemu.join("edk2-aarch64-code.fd").to_str().unwrap());
    assert_eq!(found.1, qemu.join("edk2-aarch64-vars.fd").to_str().unwrap());

    make_file(&qemu, "edk2-arm-vars.fd");
    let found = locate_firmware_from_qemu(exe.to_str().unwrap(), "aarch64", &Vec::new()).unwrap();
    assert_eq!(found.0, qemu.join("edk2-aarch64-code.fd").to_str().unwrap());
    assert_eq!(found.1, qemu.join("edk2-arm-vars.fd").to_str().unwrap());
}

#[test]
fn locate_firmware_needs_regular_files() {
    let top = tempfile::tempdir().unwrap();
    let top_real = top.path().canonicalize().unwrap();
    let bin = make_dir(&top_real, "bin");
    let share = make_dir(&top_real, "share");
    let qemu = make_dir(&share, "qemu");
    make_file(&bin, "qemu-system-x86_64");
    // A directory where the code image should be does not count.
    make_dir(&qemu, "OVMF_CODE.fd");
    make_file(&qemu, "OVMF_VARS.fd");

    let exe = bin.join("qemu-system-x86_64");
    let r = locate_firmware_from_qemu(exe.to_str().unwrap(), "x86_64", &Vec::new());
    if !std::path::Path::new("/run/current-system/sw/share/qemu").is_dir()
        && !std::path::Path::new("/nix/var/nix/profiles/system/sw/share/qemu").is_dir()
    {
        match r {
            Err(QvmError::FirmwareNotFound { arch }) => assert_eq!(arch, "x86_64"),
            other => panic!("expected FirmwareNotFound, got {:?}", other),
        }
    }
}
