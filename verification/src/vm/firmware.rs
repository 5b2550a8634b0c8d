//! Where the firmware of a guest is found on the host.
//!
//! A firmware pair is a code image and a template of the store of
//! variables. For each architecture a list of pairs of file names is tried,
//! in a list of directories: the share directory that belongs to the
//! hypervisor executable, then the system-wide ones, then those of the
//! package store. The first directory that holds a complete pair decides,
//! and within it the first such pair.

use crate::config::schema::{is_known_arch, known_arch};
use crate::error::{ErrorView, QvmError};
use crate::host;
use crate::host::{joined_path, parent_path};
use crate::text::{contains_text, occurs_in, replace_text, replaced, text_eq, text_views};
use vstd::prelude::*;

verus! {

/// The share directory of the running system.
pub open spec fn system_share_dir() -> Seq<char> {
    "/run/current-system/sw/share/qemu"@
}

/// The share directory of the system profile.
pub open spec fn profile_share_dir() -> Seq<char> {
    "/nix/var/nix/profiles/system/sw/share/qemu"@
}

/// The firmware pair that is assumed where none was found. The files are
/// not looked for.
pub open spec fn default_firmware(arch: Seq<char>) -> (Seq<char>, Seq<char>) {
    if arch == "aarch64"@ {
        (
            "/run/current-system/sw/share/qemu/edk2-aarch64-code.fd"@,
            "/run/current-system/sw/share/qemu/edk2-arm-vars.fd"@,
        )
    } else {
        (
            "/run/current-system/sw/share/qemu/OVMF_CODE.fd"@,
            "/run/current-system/sw/share/qemu/OVMF_VARS.fd"@,
        )
    }
}

/// The firmware pair that is assumed where none was found: the one of
/// `aarch64` for that architecture, the one of `x86_64` for any other.
pub fn get_default_firmware_paths(arch: &str) -> (r: (String, String))
    ensures
        (r.0@, r.1@) == default_firmware(arch@),
{
    if text_eq(arch, "aarch64") {
        (
            "/run/current-system/sw/share/qemu/edk2-aarch64-code.fd".to_owned(),
            "/run/current-system/sw/share/qemu/edk2-arm-vars.fd".to_owned(),
        )
    } else {
        (
            "/run/current-system/sw/share/qemu/OVMF_CODE.fd".to_owned(),
            "/run/current-system/sw/share/qemu/OVMF_VARS.fd".to_owned(),
        )
    }
}

/// The names of the code image and of the template of variables that are
/// tried for `arch`, in order. None for an architecture that is not
/// supported.
pub open spec fn firmware_pairs(arch: Seq<char>) -> Seq<(Seq<char>, Seq<char>)> {
    if arch == "aarch64"@ {
        seq![
            ("edk2-aarch64-code.fd"@, "edk2-arm-vars.fd"@),
            ("edk2-aarch64-code.fd"@, "edk2-aarch64-vars.fd"@),
        ]
    } else if arch == "x86_64"@ {
        seq![
            ("OVMF_CODE.fd"@, "OVMF_VARS.fd"@),
            ("edk2-x86_64-code.fd"@, "edk2-x86_64-vars.fd"@),
            ("edk2-x86_64-code.fd"@, "edk2-i386-vars.fd"@),
        ]
    } else {
        seq![]
    }
}

/// A vector of pairs of texts, each text by its characters.
pub open spec fn pair_views(pairs: Seq<(String, String)>) -> Seq<(Seq<char>, Seq<char>)> {
    pairs.map_values(|p: (String, String)| (p.0@, p.1@))
}

/// The names of the firmware files that are tried for `arch`, in order.
pub fn pairs_for(arch: &str) -> (pairs: Vec<(String, String)>)
    ensures
        pair_views(pairs@) == firmware_pairs(arch@),
{
    let mut pairs: Vec<(String, String)> = Vec::new();
    if text_eq(arch, "aarch64") {
        pairs.push(("edk2-aarch64-code.fd".to_owned(), "edk2-arm-vars.fd".to_owned()));
        pairs.push(("edk2-aarch64-code.fd".to_owned(), "edk2-aarch64-vars.fd".to_owned()));
    } else if text_eq(arch, "x86_64") {
        pairs.push(("OVMF_CODE.fd".to_owned(), "OVMF_VARS.fd".to_owned()));
        pairs.push(("edk2-x86_64-code.fd".to_owned(), "edk2-x86_64-vars.fd".to_owned()));
        pairs.push(("edk2-x86_64-code.fd".to_owned(), "edk2-i386-vars.fd".to_owned()));
    }
    pairs
}

/// The directory two levels above `p`, with `share/qemu` under it; the
/// share directory of the running system where `p` has no such ancestor.
pub open spec fn share_beside(p: Seq<char>) -> Seq<char> {
    match parent_path(p) {
        Some(dir) => match parent_path(dir) {
            Some(prefix) => joined_path(prefix, "share/qemu"@),
            None => system_share_dir(),
        },
        None => system_share_dir(),
    }
}

/// The share directory that belongs to a hypervisor executable.
///
/// `bin_real` is the executable with its symbolic links resolved, `qemu_bin`
/// the executable as it was given. Where `bin_real` holds
/// `/bin/qemu-system-`, every `/bin/qemu-system-<arch>` in it is replaced by
/// `/share/qemu`, with `aarch64` for that architecture and `x86_64` for any
/// other. Elsewhere it is `share/qemu` under the directory two levels above
/// `qemu_bin`, or the share directory of the running system.
pub open spec fn derived_share(bin_real: Seq<char>, qemu_bin: Seq<char>, arch: Seq<char>) -> Seq<
    char,
> {
    if occurs_in(bin_real, "/bin/qemu-system-"@) {
        if arch == "aarch64"@ {
            replaced(bin_real, "/bin/qemu-system-aarch64"@, "/share/qemu"@)
        } else {
            replaced(bin_real, "/bin/qemu-system-x86_64"@, "/share/qemu"@)
        }
    } else {
        share_beside(qemu_bin)
    }
}

/// The share directory that belongs to a hypervisor executable.
pub fn derive_share_dir(bin_real: &str, qemu_bin: &str, arch: &str) -> (dir: String)
    ensures
        dir@ == derived_share(bin_real@, qemu_bin@, arch@),
{
    if contains_text(bin_real, "/bin/qemu-system-") {
        if text_eq(arch, "aarch64") {
            replace_text(bin_real, "/bin/qemu-system-aarch64", "/share/qemu")
        } else {
            replace_text(bin_real, "/bin/qemu-system-x86_64", "/share/qemu")
        }
    } else {
        match host::path_parent(qemu_bin) {
            Some(dir) => match host::path_parent(dir.as_str()) {
                Some(prefix) => host::path_join(prefix.as_str(), "share/qemu"),
                None => "/run/current-system/sw/share/qemu".to_owned(),
            },
            None => "/run/current-system/sw/share/qemu".to_owned(),
        }
    }
}

/// The share directory of the package-store entry named `entry`.
pub open spec fn store_share_dir(entry: Seq<char>) -> Seq<char> {
    joined_path(joined_path("/nix/store"@, entry), "share/qemu"@)
}

/// The share directories of those entries of the package store whose name
/// holds `-qemu-`, in the order of the entries.
pub open spec fn store_dirs(entries: Seq<Seq<char>>) -> Seq<Seq<char>>
    decreases entries.len(),
{
    if entries.len() == 0 {
        seq![]
    } else if occurs_in(entries.last(), "-qemu-"@) {
        store_dirs(entries.drop_last()).push(store_share_dir(entries.last()))
    } else {
        store_dirs(entries.drop_last())
    }
}

/// The directories in which firmware is looked for, in order: the derived
/// share directory, the two system-wide ones, then those of the package
/// store.
pub open spec fn search_dirs(derived: Seq<char>, entries: Seq<Seq<char>>) -> Seq<Seq<char>> {
    seq![derived, system_share_dir(), profile_share_dir()] + store_dirs(entries)
}

/// The directories in which firmware is looked for, in order. `entries`
/// holds the names of the entries of the package store; it is empty on a
/// host that has none.
pub fn search_dirs_for(derived: String, entries: &Vec<String>) -> (dirs: Vec<String>)
    ensures
        text_views(dirs@) == search_dirs(derived@, text_views(entries@)),
{
    let ghost names = text_views(entries@);
    let ghost head = seq![derived@, system_share_dir(), profile_share_dir()];
    let mut dirs: Vec<String> = Vec::new();
    dirs.push(derived);
    dirs.push("/run/current-system/sw/share/qemu".to_owned());
    dirs.push("/nix/var/nix/profiles/system/sw/share/qemu".to_owned());
    let mut i: usize = 0;
    while i < entries.len()
        invariant
            i <= entries.len(),
            names == text_views(entries@),
            text_views(dirs@) == head + store_dirs(names.take(i as int)),
        decreases entries.len() - i,
    {
        let entry = entries[i].as_str();
        assert(names.take(i + 1).drop_last() =~= names.take(i as int));
        if contains_text(entry, "-qemu-") {
            let in_store = host::path_join("/nix/store", entry);
            let share = host::path_join(in_store.as_str(), "share/qemu");
            let ghost before = text_views(dirs@);
            dirs.push(share);
            assert(text_views(dirs@) =~= before.push(store_share_dir(entry@)));
        }
        i = i + 1;
    }
    assert(names.take(i as int) =~= names);
    dirs
}

/// One pair of firmware files as it was found in a directory: the paths of
/// the two files, and whether both are regular files.
#[derive(Debug, Clone)]
pub struct PairProbe {
    pub code: String,
    pub vars: String,
    pub complete: bool,
}

/// One directory as it was found on the host: its path, whether it is a
/// directory, and the pairs that were looked for in it, in order.
#[derive(Debug, Clone)]
pub struct DirProbe {
    pub dir: String,
    pub is_dir: bool,
    pub found: Vec<PairProbe>,
}

/// `PairProbe` in contracts: every text is the sequence of its characters.
pub struct PairProbeView {
    pub code: Seq<char>,
    pub vars: Seq<char>,
    pub complete: bool,
}

/// `DirProbe` in contracts: every text is the sequence of its characters.
pub struct DirProbeView {
    pub dir: Seq<char>,
    pub is_dir: bool,
    pub found: Seq<PairProbeView>,
}

impl View for PairProbe {
    type V = PairProbeView;

    open spec fn view(&self) -> PairProbeView {
        PairProbeView { code: self.code@, vars: self.vars@, complete: self.complete }
    }
}

impl View for DirProbe {
    type V = DirProbeView;

    open spec fn view(&self) -> DirProbeView {
        DirProbeView {
            dir: self.dir@,
            is_dir: self.is_dir,
            found: self.found@.map_values(|p: PairProbe| p@),
        }
    }
}

/// The probes of a vector, each by its view.
pub open spec fn dir_probe_views(probes: Seq<DirProbe>) -> Seq<DirProbeView> {
    probes.map_values(|p: DirProbe| p@)
}

/// The first complete pair among those looked for in one directory.
pub open spec fn first_complete(found: Seq<PairProbeView>) -> Option<(Seq<char>, Seq<char>)>
    decreases found.len(),
{
    if found.len() == 0 {
        None
    } else if found[0].complete {
        Some((found[0].code, found[0].vars))
    } else {
        first_complete(found.skip(1))
    }
}

/// Whether a probe is of a directory that holds a complete pair.
pub open spec fn holds_firmware(probe: DirProbeView) -> bool {
    probe.is_dir && first_complete(probe.found) is Some
}

/// The first complete pair of the first directory that is one and holds a
/// complete pair.
pub open spec fn first_firmware(probes: Seq<DirProbeView>) -> Option<(Seq<char>, Seq<char>)>
    decreases probes.len(),
{
    if probes.len() == 0 {
        None
    } else if holds_firmware(probes[0]) {
        first_complete(probes[0].found)
    } else {
        first_firmware(probes.skip(1))
    }
}

/// The firmware pair for `arch`, given what the probes of the directories
/// found. `UnsupportedArch` for any other architecture than the two
/// supported, whatever the probes; `FirmwareNotFound` where no directory
/// holds a complete pair.
pub open spec fn located_firmware(arch: Seq<char>, probes: Seq<DirProbeView>) -> Result<
    (Seq<char>, Seq<char>),
    ErrorView,
> {
    if !known_arch(arch) {
        Err(ErrorView::UnsupportedArch { arch: arch })
    } else {
        match first_firmware(probes) {
            Some(pair) => Ok(pair),
            None => Err(ErrorView::FirmwareNotFound { arch: arch }),
        }
    }
}

/// A firmware pair or a failure, each text by its characters.
pub open spec fn pair_result(r: Result<(String, String), QvmError>) -> Result<
    (Seq<char>, Seq<char>),
    ErrorView,
> {
    match r {
        Ok(p) => Ok((p.0@, p.1@)),
        Err(e) => Err(e@),
    }
}

fn first_complete_of(found: &Vec<PairProbe>) -> (r: Option<(String, String)>)
    ensures
        match r {
            Some(p) => first_complete(found@.map_values(|p: PairProbe| p@)) == Some((p.0@, p.1@)),
            None => first_complete(found@.map_values(|p: PairProbe| p@)) is None,
        },
{
    let ghost all = found@.map_values(|p: PairProbe| p@);
    let mut j: usize = 0;
    assert(all.skip(0) =~= all);
    while j < found.len()
        invariant
            j <= found.len(),
            all == found@.map_values(|p: PairProbe| p@),
            first_complete(all) == first_complete(all.skip(j as int)),
        decreases found.len() - j,
    {
        assert(all.skip(j as int).skip(1) =~= all.skip(j + 1));
        if found[j].complete {
            return Some((found[j].code.clone(), found[j].vars.clone()));
        }
        j = j + 1;
    }
    None
}

/// The firmware pair for `arch`, given what the probes of the directories
/// found.
pub fn select_firmware(arch: &str, probes: &Vec<DirProbe>) -> (r: Result<
    (String, String),
    QvmError,
>)
    ensures
        pair_result(r) == located_firmware(arch@, dir_probe_views(probes@)),
{
    if !is_known_arch(arch) {
        return Err(QvmError::UnsupportedArch { arch: arch.to_owned() });
    }
    let ghost all = dir_probe_views(probes@);
    let mut i: usize = 0;
    assert(all.skip(0) =~= all);
    while i < probes.len()
        invariant
            i <= probes.len(),
            known_arch(arch@),
            all == dir_probe_views(probes@),
            first_firmware(all) == first_firmware(all.skip(i as int)),
        decreases probes.len() - i,
    {
        assert(all.skip(i as int).skip(1) =~= all.skip(i + 1));
        if probes[i].is_dir {
            match first_complete_of(&probes[i].found) {
                Some(pair) => {
                    return Ok(pair);
                },
                None => {},
            }
        }
        i = i + 1;
    }
    Err(QvmError::FirmwareNotFound { arch: arch.to_owned() })
}

/// What `first_complete` gives is the first complete pair: none before it
/// is complete. It gives none only where no pair is complete.
pub proof fn lemma_first_complete_is_first(found: Seq<PairProbeView>)
    ensures
        match first_complete(found) {
            Some(pair) => exists|j: int|
                0 <= j < found.len() && (#[trigger] found[j]).complete && pair == (
                    found[j].code,
                    found[j].vars,
                ) && forall|k: int| 0 <= k < j ==> !(#[trigger] found[k]).complete,
            None => forall|j: int| 0 <= j < found.len() ==> !(#[trigger] found[j]).complete,
        },
    decreases found.len(),
{
    if found.len() > 0 && !found[0].complete {
        let rest = found.skip(1);
        lemma_first_complete_is_first(rest);
        match first_complete(rest) {
            Some(pair) => {
                let j = choose|j: int|
                    0 <= j < rest.len() && (#[trigger] rest[j]).complete && pair == (
                        rest[j].code,
                        rest[j].vars,
                    ) && forall|k: int| 0 <= k < j ==> !(#[trigger] rest[k]).complete;
                assert forall|k: int| 0 <= k < j + 1 implies !(#[trigger] found[k]).complete by {
                    if k > 0 {
                        assert(found[k] == rest[k - 1]);
                    }
                }
            },
            None => {
                assert forall|j: int| 0 <= j < found.len() implies !(#[trigger] found[j]).complete by {
                    if j > 0 {
                        assert(found[j] == rest[j - 1]);
                    }
                }
            },
        }
    }
}

/// What `first_firmware` gives is the first complete pair of the first
/// directory that holds one: no directory before it does. It gives none
/// only where no directory holds a complete pair.
pub proof fn lemma_first_firmware_is_first(probes: Seq<DirProbeView>)
    ensures
        match first_firmware(probes) {
            Some(pair) => exists|i: int|
                0 <= i < probes.len() && holds_firmware(#[trigger] probes[i]) && first_complete(
                    probes[i].found,
                ) == Some(pair) && forall|k: int|
                    0 <= k < i ==> !holds_firmware(#[trigger] probes[k]),
            None => forall|i: int| 0 <= i < probes.len() ==> !holds_firmware(#[trigger] probes[i]),
        },
    decreases probes.len(),
{
    if probes.len() > 0 && !holds_firmware(probes[0]) {
        let rest = probes.skip(1);
        lemma_first_firmware_is_first(rest);
        match first_firmware(rest) {
            Some(pair) => {
                let i = choose|i: int|
                    0 <= i < rest.len() && holds_firmware(#[trigger] rest[i]) && first_complete(
                        rest[i].found,
                    ) == Some(pair) && forall|k: int|
                        0 <= k < i ==> !holds_firmware(#[trigger] rest[k]);
                assert forall|k: int| 0 <= k < i + 1 implies !holds_firmware(
                    #[trigger] probes[k],
                ) by {
                    if k > 0 {
                        assert(probes[k] == rest[k - 1]);
                    }
                }
            },
            None => {
                assert forall|i: int| 0 <= i < probes.len() implies !holds_firmware(
                    #[trigger] probes[i],
                ) by {
                    if i > 0 {
                        assert(probes[i] == rest[i - 1]);
                    }
                }
            },
        }
    }
}

/// Whether `found` can be what looking for `pairs` in the directory `dir`
/// gives: the pairs are looked for in order, each under the directory, up to
/// the first complete one or else to the last.
pub open spec fn pairs_fit(
    dir: Seq<char>,
    pairs: Seq<(Seq<char>, Seq<char>)>,
    found: Seq<PairProbeView>,
) -> bool {
    &&& found.len() <= pairs.len()
    &&& forall|j: int|
        0 <= j < found.len() ==> (#[trigger] found[j]).code == joined_path(dir, pairs[j].0)
            && found[j].vars == joined_path(dir, pairs[j].1)
    &&& (found.len() == pairs.len() || first_complete(found) is Some)
}

/// Whether `probe` can be what probing the directory `dir` gives: nothing
/// is looked for in what is no directory.
pub open spec fn dir_fits(
    dir: Seq<char>,
    pairs: Seq<(Seq<char>, Seq<char>)>,
    probe: DirProbeView,
) -> bool {
    &&& probe.dir == dir
    &&& if probe.is_dir {
        pairs_fit(dir, pairs, probe.found)
    } else {
        probe.found.len() == 0
    }
}

/// Whether `probes` can be what probing `dirs` for `pairs` gives: the
/// directories are probed in order, up to the first that holds a complete
/// pair or else to the last.
pub open spec fn dirs_fit(
    dirs: Seq<Seq<char>>,
    pairs: Seq<(Seq<char>, Seq<char>)>,
    probes: Seq<DirProbeView>,
) -> bool {
    &&& probes.len() <= dirs.len()
    &&& forall|i: int| 0 <= i < probes.len() ==> dir_fits(dirs[i], pairs, #[trigger] probes[i])
    &&& (probes.len() == dirs.len() || first_firmware(probes) is Some)
}

/// One more pair that was looked for decides where none before it was
/// complete.
pub proof fn lemma_first_complete_push(found: Seq<PairProbeView>, last: PairProbeView)
    requires
        first_complete(found) is None,
    ensures
        first_complete(found.push(last)) == if last.complete {
            Some((last.code, last.vars))
        } else {
            None
        },
    decreases found.len(),
{
    reveal_with_fuel(first_complete, 2);
    if found.len() > 0 {
        assert(found.push(last).skip(1) =~= found.skip(1).push(last));
        lemma_first_complete_push(found.skip(1), last);
    }
}

/// One more directory that was probed decides where none before it held a
/// complete pair.
pub proof fn lemma_first_firmware_push(probes: Seq<DirProbeView>, last: DirProbeView)
    requires
        first_firmware(probes) is None,
    ensures
        first_firmware(probes.push(last)) == if last.is_dir {
            first_complete(last.found)
        } else {
            None
        },
    decreases probes.len(),
{
    reveal_with_fuel(first_firmware, 2);
    if probes.len() > 0 {
        assert(probes.push(last).skip(1) =~= probes.skip(1).push(last));
        lemma_first_firmware_push(probes.skip(1), last);
    }
}

/// Probes one directory for the pairs, in order: asks the host whether it
/// is a directory and, if so, for each pair whether both files are regular
/// files, up to the first pair for which they are.
fn probe_dir(dir: &str, pairs: &Vec<(String, String)>) -> (probe: DirProbe)
    ensures
        dir_fits(dir@, pair_views(pairs@), probe@),
{
    let mut found: Vec<PairProbe> = Vec::new();
    let is_dir = host::path_is_dir(dir);
    if is_dir {
        let ghost names = pair_views(pairs@);
        let mut j: usize = 0;
        while j < pairs.len()
            invariant_except_break
                first_complete(found@.map_values(|p: PairProbe| p@)) is None,
            invariant
                j <= pairs.len(),
                names == pair_views(pairs@),
                found.len() == j,
                forall|k: int|
                    0 <= k < j ==> (#[trigger] found@[k]).code@ == joined_path(dir@, names[k].0)
                        && found@[k].vars@ == joined_path(dir@, names[k].1),
            ensures
                found.len() <= pairs.len(),
                forall|k: int|
                    0 <= k < found.len() ==> (#[trigger] found@[k]).code@ == joined_path(
                        dir@,
                        names[k].0,
                    ) && found@[k].vars@ == joined_path(dir@, names[k].1),
                found.len() == pairs.len() || first_complete(
                    found@.map_values(|p: PairProbe| p@),
                ) is Some,
            decreases pairs.len() - j,
        {
            let code = host::path_join(dir, pairs[j].0.as_str());
            let vars = host::path_join(dir, pairs[j].1.as_str());
            let complete = host::path_is_file(code.as_str()) && host::path_is_file(vars.as_str());
            let ghost before = found@.map_values(|p: PairProbe| p@);
            let entry = PairProbe { code, vars, complete };
            proof {
                lemma_first_complete_push(before, entry@);
            }
            found.push(entry);
            assert(found@.map_values(|p: PairProbe| p@) =~= before.push(entry@));
            j = j + 1;
            if complete {
                break ;
            }
        }
    }
    DirProbe { dir: dir.to_owned(), is_dir, found }
}

/// Probes the directories for the pairs, in order, up to the first
/// directory that holds a complete pair.
fn probe_dirs(dirs: &Vec<String>, pairs: &Vec<(String, String)>) -> (probes: Vec<DirProbe>)
    ensures
        dirs_fit(text_views(dirs@), pair_views(pairs@), dir_probe_views(probes@)),
{
    let ghost paths = text_views(dirs@);
    let ghost names = pair_views(pairs@);
    let mut probes: Vec<DirProbe> = Vec::new();
    let mut i: usize = 0;
    while i < dirs.len()
        invariant_except_break
            first_firmware(dir_probe_views(probes@)) is None,
        invariant
            i <= dirs.len(),
            paths == text_views(dirs@),
            names == pair_views(pairs@),
            probes.len() == i,
            forall|k: int| 0 <= k < i ==> dir_fits(paths[k], names, #[trigger] probes@[k]@),
        ensures
            probes.len() <= dirs.len(),
            forall|k: int|
                0 <= k < probes.len() ==> dir_fits(paths[k], names, #[trigger] probes@[k]@),
            probes.len() == dirs.len() || first_firmware(dir_probe_views(probes@)) is Some,
        decreases dirs.len() - i,
    {
        let probe = probe_dir(dirs[i].as_str(), pairs);
        let hit = probe.is_dir && first_complete_of(&probe.found).is_some();
        let ghost before = dir_probe_views(probes@);
        proof {
            lemma_first_firmware_push(before, probe@);
        }
        probes.push(probe);
        assert(dir_probe_views(probes@) =~= before.push(probe@));
        i = i + 1;
        if hit {
            break ;
        }
    }
    probes
}

/// The firmware pair for the guest architecture `arch`, looked for from the
/// hypervisor executable `qemu_bin`. `store_entries` holds the names of the
/// entries of the package store, empty on a host that has none.
///
/// The executable is resolved through its symbolic links, or taken as given
/// where that fails; the share directory is derived from it; the search
/// directories are probed in order, and in each the pairs of the
/// architecture, up to the first complete pair. The result is what
/// `located_firmware` gives for those probes. So an unsupported
/// architecture always fails with `UnsupportedArch`, and a supported one
/// yields the first complete pair of the first directory that holds one, or
/// `FirmwareNotFound`.
pub fn locate_firmware_from_qemu(qemu_bin: &str, arch: &str, store_entries: &Vec<String>) -> (r:
    Result<(String, String), QvmError>)
    ensures
        !known_arch(arch@) ==> pair_result(r) == Err::<(Seq<char>, Seq<char>), ErrorView>(
            ErrorView::UnsupportedArch { arch: arch@ },
        ),
        known_arch(arch@) ==> exists|bin_real: Seq<char>, probes: Seq<DirProbeView>|
            dirs_fit(
                search_dirs(
                    derived_share(bin_real, qemu_bin@, arch@),
                    text_views(store_entries@),
                ),
                firmware_pairs(arch@),
                probes,
            ) && pair_result(r) == located_firmware(arch@, probes),
{
    if !is_known_arch(arch) {
        return Err(QvmError::UnsupportedArch { arch: arch.to_owned() });
    }
    let bin_real = match host::path_canonical(qemu_bin) {
        Some(resolved) => resolved,
        None => qemu_bin.to_owned(),
    };
    let derived = derive_share_dir(bin_real.as_str(), qemu_bin, arch);
    let dirs = search_dirs_for(derived, store_entries);
    let pairs = pairs_for(arch);
    let probes = probe_dirs(&dirs, &pairs);
    select_firmware(arch, &probes)
}

} // verus!
