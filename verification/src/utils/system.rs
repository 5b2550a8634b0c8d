//! What the system is asked: the time, the hypervisor executable for an
//! architecture, and whether the process of a machine is alive.

use crate::config::schema::{is_known_arch, known_arch};
use crate::error::{text_result, ErrorView, QvmError};
use crate::host;
use crate::host::joined_path;
use crate::text::{
    begins_with, chars_of, decimal, lemma_decimal_writes, lemma_parse_decimal, parse_chars,
    parsed_u32, starts_with_char, text_eq, text_views, trim_text, trimmed,
    without_trailing_space,
};
use vstd::prelude::*;

verus! {

/// `chrono::Utc::now`, written out by `to_rfc3339`: the current time in UTC
/// as an RFC 3339 timestamp. The contract is taken on trust. Which time it
/// is depends on the clock; what holds of every answer is `utc_stamped`:
/// the crate writes a `T` between the date and the time, and the offset of
/// UTC as `+00:00` at the end. The call does not return where the clock of
/// the system stands before 1970.
#[verifier::external_body]
pub fn now_utc() -> (timestamp: String)
    ensures
        host::utc_stamped(timestamp@),
{
    chrono::Utc::now().to_rfc3339()
}

/// The places where the hypervisor for `arch` is looked for, in the order
/// in which they are tried: a fixed absolute path, then the bare name of the
/// executable, to be found on the search path. None for an architecture that
/// is not supported.
pub open spec fn binary_candidates(arch: Seq<char>) -> Seq<Seq<char>> {
    if arch == "aarch64"@ {
        seq!["/run/current-system/sw/bin/qemu-system-aarch64"@, "qemu-system-aarch64"@]
    } else if arch == "x86_64"@ {
        seq!["/run/current-system/sw/bin/qemu-system-x86_64"@, "qemu-system-x86_64"@]
    } else {
        seq![]
    }
}

/// One candidate as it was found on the host: the path it resolved to, and
/// whether a regular file is there.
#[derive(Debug, Clone)]
pub struct BinaryProbe {
    pub path: String,
    pub is_file: bool,
}

/// `BinaryProbe` in contracts: every text is the sequence of its characters.
pub struct BinaryProbeView {
    pub path: Seq<char>,
    pub is_file: bool,
}

impl View for BinaryProbe {
    type V = BinaryProbeView;

    open spec fn view(&self) -> BinaryProbeView {
        BinaryProbeView { path: self.path@, is_file: self.is_file }
    }
}

/// The probes of a vector, each by its view.
pub open spec fn probe_views(probes: Seq<BinaryProbe>) -> Seq<BinaryProbeView> {
    probes.map_values(|p: BinaryProbe| p@)
}

/// The path of the first probe that found a regular file.
pub open spec fn first_file(probes: Seq<BinaryProbeView>) -> Option<Seq<char>>
    decreases probes.len(),
{
    if probes.len() == 0 {
        None
    } else if probes[0].is_file {
        Some(probes[0].path)
    } else {
        first_file(probes.skip(1))
    }
}

/// The hypervisor for `arch`, given what the probes of its candidates found:
/// the first candidate that is a regular file. `UnsupportedArch` for any
/// other architecture than the two supported, whatever the probes;
/// `BinaryNotFound` where no probe found a regular file.
pub open spec fn picked_binary(arch: Seq<char>, probes: Seq<BinaryProbeView>) -> Result<
    Seq<char>,
    ErrorView,
> {
    if !known_arch(arch) {
        Err(ErrorView::UnsupportedArch { arch: arch })
    } else {
        match first_file(probes) {
            Some(p) => Ok(p),
            None => Err(ErrorView::BinaryNotFound { arch: arch }),
        }
    }
}

/// What `first_file` gives is the path of the first probe that found a
/// regular file: none before it did. It gives none only where no probe
/// found one.
pub proof fn lemma_first_file_is_first(probes: Seq<BinaryProbeView>)
    ensures
        match first_file(probes) {
            Some(path) => exists|i: int|
                0 <= i < probes.len() && (#[trigger] probes[i]).is_file && path == probes[i].path
                    && forall|k: int| 0 <= k < i ==> !(#[trigger] probes[k]).is_file,
            None => forall|i: int| 0 <= i < probes.len() ==> !(#[trigger] probes[i]).is_file,
        },
    decreases probes.len(),
{
    if probes.len() > 0 && !probes[0].is_file {
        let rest = probes.skip(1);
        lemma_first_file_is_first(rest);
        match first_file(rest) {
            Some(path) => {
                let i = choose|i: int|
                    0 <= i < rest.len() && (#[trigger] rest[i]).is_file && path == rest[i].path
                        && forall|k: int| 0 <= k < i ==> !(#[trigger] rest[k]).is_file;
                assert forall|k: int| 0 <= k < i + 1 implies !(#[trigger] probes[k]).is_file by {
                    if k > 0 {
                        assert(probes[k] == rest[k - 1]);
                    }
                }
            },
            None => {
                assert forall|i: int| 0 <= i < probes.len() implies !(#[trigger] probes[i]).is_file by {
                    if i > 0 {
                        assert(probes[i] == rest[i - 1]);
                    }
                }
            },
        }
    }
}

/// Whether `probes` can be what probing the candidates of `arch` gives: the
/// candidates are probed in order, an absolute one under its own path, up
/// to the first that is a regular file or else to the last.
pub open spec fn probes_fit(arch: Seq<char>, probes: Seq<BinaryProbeView>) -> bool {
    &&& probes.len() <= binary_candidates(arch).len()
    &&& forall|i: int|
        0 <= i < probes.len() && begins_with(#[trigger] binary_candidates(arch)[i], '/')
            ==> probes[i].path == binary_candidates(arch)[i]
    &&& (probes.len() == binary_candidates(arch).len() || first_file(probes) is Some)
}

/// One more candidate that was probed decides where none before it was a
/// regular file.
pub proof fn lemma_first_file_push(probes: Seq<BinaryProbeView>, last: BinaryProbeView)
    requires
        first_file(probes) is None,
    ensures
        first_file(probes.push(last)) == if last.is_file {
            Some(last.path)
        } else {
            None
        },
    decreases probes.len(),
{
    reveal_with_fuel(first_file, 2);
    if probes.len() > 0 {
        assert(probes.push(last).skip(1) =~= probes.skip(1).push(last));
        lemma_first_file_push(probes.skip(1), last);
    }
}

/// The places where the hypervisor for `arch` is looked for, in order.
pub fn candidates_for(arch: &str) -> (cands: Vec<String>)
    ensures
        text_views(cands@) == binary_candidates(arch@),
{
    let mut cands: Vec<String> = Vec::new();
    if text_eq(arch, "aarch64") {
        cands.push("/run/current-system/sw/bin/qemu-system-aarch64".to_owned());
        cands.push("qemu-system-aarch64".to_owned());
    } else if text_eq(arch, "x86_64") {
        cands.push("/run/current-system/sw/bin/qemu-system-x86_64".to_owned());
        cands.push("qemu-system-x86_64".to_owned());
    }
    cands
}

/// The hypervisor for `arch`, given what the probes of its candidates found.
pub fn select_binary(arch: &str, probes: &Vec<BinaryProbe>) -> (r: Result<String, QvmError>)
    ensures
        text_result(r) == picked_binary(arch@, probe_views(probes@)),
{
    if !is_known_arch(arch) {
        return Err(QvmError::UnsupportedArch { arch: arch.to_owned() });
    }
    let ghost all = probe_views(probes@);
    let mut i: usize = 0;
    assert(all.skip(0) =~= all);
    while i < probes.len()
        invariant
            i <= probes.len(),
            known_arch(arch@),
            all == probe_views(probes@),
            first_file(all) == first_file(all.skip(i as int)),
        decreases probes.len() - i,
    {
        assert(all.skip(i as int).skip(1) =~= all.skip(i + 1));
        if probes[i].is_file {
            return Ok(probes[i].path.clone());
        }
        i = i + 1;
    }
    Err(QvmError::BinaryNotFound { arch: arch.to_owned() })
}

/// The hypervisor executable for the guest architecture `arch`.
///
/// The candidates are probed in order, up to the first that is a regular
/// file: an absolute one under its own path, a bare name under the path
/// that the search path gives for it, or under the name itself where the
/// search finds nothing. The result is what `picked_binary` gives for those
/// probes. So an unsupported architecture always fails with
/// `UnsupportedArch`, and a supported one yields the first candidate that is
/// a regular file, or `BinaryNotFound`.
pub fn pick_qemu_bin(arch: &str) -> (r: Result<String, QvmError>)
    ensures
        !known_arch(arch@) ==> text_result(r) == Err::<Seq<char>, ErrorView>(
            ErrorView::UnsupportedArch { arch: arch@ },
        ),
        known_arch(arch@) ==> exists|probes: Seq<BinaryProbeView>|
            probes_fit(arch@, probes) && text_result(r) == picked_binary(arch@, probes),
{
    if !is_known_arch(arch) {
        return Err(QvmError::UnsupportedArch { arch: arch.to_owned() });
    }
    let cands = candidates_for(arch);
    let ghost names = binary_candidates(arch@);
    let mut probes: Vec<BinaryProbe> = Vec::new();
    let mut i: usize = 0;
    while i < cands.len()
        invariant_except_break
            first_file(probe_views(probes@)) is None,
        invariant
            i <= cands.len(),
            text_views(cands@) == names,
            probes.len() == i,
            forall|j: int|
                0 <= j < i && begins_with(#[trigger] names[j], '/') ==> probes@[j].path@
                    == names[j],
        ensures
            probes.len() <= cands.len(),
            forall|j: int|
                0 <= j < probes.len() && begins_with(#[trigger] names[j], '/')
                    ==> probes@[j].path@ == names[j],
            probes.len() == cands.len() || first_file(probe_views(probes@)) is Some,
        decreases cands.len() - i,
    {
        let c = cands[i].as_str();
        let path = if starts_with_char(c, '/') {
            c.to_owned()
        } else {
            match host::which(c) {
                Some(found) => found,
                None => c.to_owned(),
            }
        };
        let is_file = host::path_is_file(path.as_str());
        let ghost before = probe_views(probes@);
        let probe = BinaryProbe { path, is_file };
        proof {
            lemma_first_file_push(before, probe@);
        }
        probes.push(probe);
        assert(probe_views(probes@) =~= before.push(probe@));
        i = i + 1;
        if is_file {
            break ;
        }
    }
    select_binary(arch, &probes)
}

/// The marker file that holds the process id of the machine whose directory
/// is `vm_dir`.
pub open spec fn marker_path(vm_dir: Seq<char>) -> Seq<char> {
    joined_path(vm_dir, "vm.pid"@)
}

/// The marker file that holds the process id of the machine whose directory
/// is `vm_dir`.
pub fn pid_marker_path(vm_dir: &str) -> (r: String)
    ensures
        r@ == marker_path(vm_dir@),
{
    host::path_join(vm_dir, "vm.pid")
}

/// The process id that the content of a marker file writes: a decimal
/// number that fits in 32 bits, white space around it ignored.
pub open spec fn marker_pid(content: Seq<char>) -> Option<u32> {
    parsed_u32(trimmed(content))
}

/// The process id that the content of a marker file writes, if it writes
/// one.
pub fn parse_pid(content: &str) -> (r: Option<u32>)
    ensures
        r == marker_pid(content@),
{
    let t = trim_text(content);
    let v = chars_of(t.as_str());
    parse_chars(&v)
}

/// What was found of the marker file of a machine.
#[derive(Debug, Clone)]
pub enum MarkerRead {
    /// There is no marker file.
    Missing,
    /// There is one, and it cannot be read.
    Unreadable,
    /// There is one, with this content.
    Content(String),
}

/// `MarkerRead` in contracts: every text is the sequence of its characters.
pub enum MarkerReadView {
    Missing,
    Unreadable,
    Content(Seq<char>),
}

impl View for MarkerRead {
    type V = MarkerReadView;

    open spec fn view(&self) -> MarkerReadView {
        match self {
            MarkerRead::Missing => MarkerReadView::Missing,
            MarkerRead::Unreadable => MarkerReadView::Unreadable,
            MarkerRead::Content(c) => MarkerReadView::Content(c@),
        }
    }
}

/// What the liveness check does once the marker file was looked at.
#[derive(Debug, Clone, Copy, PartialEq, Eq, Structural)]
pub enum LivenessStep {
    /// The machine is not running; nothing is left to do.
    NotRunning,
    /// The marker is stale: it is removed, and the machine is not running.
    DiscardMarker,
    /// The machine is running if and only if a process of this id exists.
    QueryProcess(u32),
}

/// The step that follows from what was found of the marker file. No marker
/// means not running. A marker that cannot be read, or that does not write
/// a process id, is stale. Otherwise the process table decides.
pub open spec fn liveness_step_for(marker: MarkerReadView) -> LivenessStep {
    match marker {
        MarkerReadView::Missing => LivenessStep::NotRunning,
        MarkerReadView::Unreadable => LivenessStep::DiscardMarker,
        MarkerReadView::Content(c) => match marker_pid(c) {
            Some(pid) => LivenessStep::QueryProcess(pid),
            None => LivenessStep::DiscardMarker,
        },
    }
}

/// The step that follows from what was found of the marker file.
pub fn liveness_step(marker: &MarkerRead) -> (step: LivenessStep)
    ensures
        step == liveness_step_for(marker@),
{
    match marker {
        MarkerRead::Missing => LivenessStep::NotRunning,
        MarkerRead::Unreadable => LivenessStep::DiscardMarker,
        MarkerRead::Content(c) => match parse_pid(c.as_str()) {
            Some(pid) => LivenessStep::QueryProcess(pid),
            None => LivenessStep::DiscardMarker,
        },
    }
}

/// Whether the machine is running, once the step was carried out:
/// `process_exists` is the answer of the process table, asked only for
/// `QueryProcess`.
pub open spec fn running_after(step: LivenessStep, process_exists: bool) -> bool {
    step matches LivenessStep::QueryProcess(_) && process_exists
}

/// Whether the machine is running, once the step was carried out.
pub fn is_running_after(step: LivenessStep, process_exists: bool) -> (r: bool)
    ensures
        r == running_after(step, process_exists),
{
    match step {
        LivenessStep::QueryProcess(_) => process_exists,
        _ => false,
    }
}

/// A check that finds the machine running has removed nothing: the marker
/// is discarded only where the machine is found not to be running.
pub proof fn lemma_running_keeps_marker(marker: MarkerReadView, process_exists: bool)
    requires
        running_after(liveness_step_for(marker), process_exists),
    ensures
        liveness_step_for(marker) != LivenessStep::DiscardMarker,
        marker matches MarkerReadView::Content(c) && marker_pid(c) is Some,
{
}

/// A marker that holds a process id in decimal notation and a line feed
/// behind it, as it is commonly written, sends the check to the process
/// table with that id.
pub proof fn lemma_marker_of_pid(pid: u32)
    ensures
        liveness_step_for(MarkerReadView::Content(decimal(pid as nat).push('\n')))
            == LivenessStep::QueryProcess(pid),
{
    let digits = decimal(pid as nat);
    let content = digits.push('\n');
    lemma_decimal_writes(pid as nat);
    lemma_parse_decimal(pid);
    assert(content.drop_last() =~= digits);
    assert(without_trailing_space(digits) == digits);
}

} // verus!
