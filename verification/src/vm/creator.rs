//! The creation of a machine: what is asked for, what is decided from it,
//! and the descriptor that results.

use crate::config::schema::{
    known_arch, known_display_mode, known_network_mode, Display, DisplayView, Firmware,
    FirmwareView, Forwards, Hardware, HardwareView, Meta, MetaView, Network, NetworkView, Paths,
    PathsView, Spice, SpiceView, VmConfig, VmConfigView, Vnc, VncView,
};
use crate::error::{
    option_error, option_text, out_of_turn, out_of_turn_error, text_result, ErrorView, QvmError,
};
use crate::host;
use crate::text::{hex_pair, push_hex_pair, push_text, string_of, text_eq};
use crate::utils::paths::{resolve_under_root, resolved, vm_root, vm_root_in};
use crate::utils::system::now_utc;
use crate::vm::firmware::{default_firmware, get_default_firmware_paths, pair_result};
use vstd::prelude::*;

verus! {

/// What the operator asks for when creating a machine.
#[derive(Debug, Clone)]
pub struct CreateParams {
    pub name: String,
    pub arch: String,
    pub cpu_model: String,
    /// Plain number of virtual CPUs; ignored where any of the three
    /// topology fields is set.
    pub smp: Option<u32>,
    pub sockets: Option<u32>,
    pub cores: Option<u32>,
    pub threads: Option<u32>,
    /// Memory in megabytes.
    pub mem: u32,
    pub net_mode: String,
    pub bridge_if: String,
    pub display_mode: String,
    /// Disk image; relative to the root of the machine unless absolute.
    pub disk: Option<String>,
    /// Size of the disk image to create where there is none yet.
    pub disk_size: Option<String>,
    pub vnc_host: String,
    pub vnc_display: u8,
    pub vnc_sock: Option<String>,
    pub vnc_unix: bool,
    pub spice_addr: String,
    pub spice_port: u16,
    pub spice_sock: Option<String>,
    pub spice_unix: bool,
    pub spice_disable_ticketing: bool,
}

/// `CreateParams` in contracts: every text is the sequence of its characters.
pub struct CreateParamsView {
    pub name: Seq<char>,
    pub arch: Seq<char>,
    pub cpu_model: Seq<char>,
    pub smp: Option<u32>,
    pub sockets: Option<u32>,
    pub cores: Option<u32>,
    pub threads: Option<u32>,
    pub mem: u32,
    pub net_mode: Seq<char>,
    pub bridge_if: Seq<char>,
    pub display_mode: Seq<char>,
    pub disk: Option<Seq<char>>,
    pub disk_size: Option<Seq<char>>,
    pub vnc_host: Seq<char>,
    pub vnc_display: u8,
    pub vnc_sock: Option<Seq<char>>,
    pub vnc_unix: bool,
    pub spice_addr: Seq<char>,
    pub spice_port: u16,
    pub spice_sock: Option<Seq<char>>,
    pub spice_unix: bool,
    pub spice_disable_ticketing: bool,
}

impl View for CreateParams {
    type V = CreateParamsView;

    open spec fn view(&self) -> CreateParamsView {
        CreateParamsView {
            name: self.name@,
            arch: self.arch@,
            cpu_model: self.cpu_model@,
            smp: self.smp,
            sockets: self.sockets,
            cores: self.cores,
            threads: self.threads,
            mem: self.mem,
            net_mode: self.net_mode@,
            bridge_if: self.bridge_if@,
            display_mode: self.display_mode@,
            disk: option_text(self.disk),
            disk_size: option_text(self.disk_size),
            vnc_host: self.vnc_host@,
            vnc_display: self.vnc_display,
            vnc_sock: option_text(self.vnc_sock),
            vnc_unix: self.vnc_unix,
            spice_addr: self.spice_addr@,
            spice_port: self.spice_port,
            spice_sock: option_text(self.spice_sock),
            spice_unix: self.spice_unix,
            spice_disable_ticketing: self.spice_disable_ticketing,
        }
    }
}

/// The CPU model that is recorded. The model `host` belongs to the host
/// machine and is not carried over to an `x86_64` guest, which gets the
/// portable `qemu64` in its place. Every other model, and every model for
/// another architecture, is recorded as asked.
pub open spec fn normalized_cpu_model(arch: Seq<char>, cpu_model: Seq<char>) -> Seq<char> {
    if arch == "x86_64"@ && cpu_model == "host"@ {
        "qemu64"@
    } else {
        cpu_model
    }
}

/// The CPU model that is recorded for a request.
pub fn normalize_cpu_model(arch: &str, cpu_model: &str) -> (model: String)
    ensures
        model@ == normalized_cpu_model(arch@, cpu_model@),
{
    if text_eq(arch, "x86_64") && text_eq(cpu_model, "host") {
        "qemu64".to_owned()
    } else {
        cpu_model.to_owned()
    }
}

/// A count of sockets, cores or threads as it is recorded: at least 1, so
/// that a count of zero is raised to 1.
pub open spec fn at_least_one(n: u32) -> u32 {
    if n < 1 {
        1
    } else {
        n
    }
}

/// The value of a topology field that may be unset: 1 where it is unset,
/// else the value that was set, at least 1.
pub open spec fn or_one(field: Option<u32>) -> u32 {
    match field {
        Some(n) => at_least_one(n),
        None => 1,
    }
}

/// The topology of a machine as sockets, cores and threads, each at least
/// 1.
///
/// Where any of the three fields is set, they decide, an unset one counting
/// as 1, and `smp` is ignored. Else a plain number `smp` of virtual CPUs
/// gives that many cores in one socket with one thread each. Else the
/// machine has one socket of four cores with one thread each. A count of
/// zero, in a field or in `smp`, is raised to 1: a machine has at least one
/// socket, one core in each socket and one thread in each core.
pub open spec fn topology(
    smp: Option<u32>,
    sockets: Option<u32>,
    cores: Option<u32>,
    threads: Option<u32>,
) -> (u32, u32, u32) {
    if sockets is Some || cores is Some || threads is Some {
        (or_one(sockets), or_one(cores), or_one(threads))
    } else {
        match smp {
            Some(n) => (1, at_least_one(n), 1),
            None => (1, 4, 1),
        }
    }
}

/// A count of sockets, cores or threads as it is recorded: at least 1.
fn raise_to_one(n: u32) -> (r: u32)
    ensures
        r == at_least_one(n),
{
    if n < 1 {
        1
    } else {
        n
    }
}

/// The value of a topology field that may be unset.
fn field_or_one(field: Option<u32>) -> (r: u32)
    ensures
        r == or_one(field),
{
    match field {
        Some(n) => raise_to_one(n),
        None => 1,
    }
}

/// The topology of a machine as sockets, cores and threads, each at least
/// 1.
pub fn resolve_topology(
    smp: Option<u32>,
    sockets: Option<u32>,
    cores: Option<u32>,
    threads: Option<u32>,
) -> (t: (u32, u32, u32))
    ensures
        t == topology(smp, sockets, cores, threads),
        t.0 >= 1 && t.1 >= 1 && t.2 >= 1,
{
    if sockets.is_some() || cores.is_some() || threads.is_some() {
        (field_or_one(sockets), field_or_one(cores), field_or_one(threads))
    } else {
        match smp {
            Some(n) => (1, raise_to_one(n), 1),
            None => (1, 4, 1),
        }
    }
}

/// Every topology has at least one socket, core and thread, whatever was
/// asked for: so it gives the machine at least one virtual CPU.
pub proof fn lemma_topology_positive(
    smp: Option<u32>,
    sockets: Option<u32>,
    cores: Option<u32>,
    threads: Option<u32>,
)
    ensures
        topology(smp, sockets, cores, threads).0 >= 1,
        topology(smp, sockets, cores, threads).1 >= 1,
        topology(smp, sockets, cores, threads).2 >= 1,
        topology(smp, sockets, cores, threads).0 * topology(smp, sockets, cores, threads).1
            * topology(smp, sockets, cores, threads).2 >= 1,
{
    let t = topology(smp, sockets, cores, threads);
    assert(t.0 * t.1 >= 1) by (nonlinear_arith)
        requires
            t.0 >= 1,
            t.1 >= 1,
    ;
    assert(t.0 * t.1 * t.2 >= 1) by (nonlinear_arith)
        requires
            t.0 * t.1 >= 1,
            t.2 >= 1,
    ;
}

/// The machine type of a guest.
pub open spec fn machine_type(arch: Seq<char>) -> Seq<char> {
    if arch == "aarch64"@ {
        "virt,gic-version=3"@
    } else {
        "q35"@
    }
}

/// The acceleration backend of a guest.
pub open spec fn accelerator(arch: Seq<char>) -> Seq<char> {
    if arch == "aarch64"@ {
        "hvf"@
    } else {
        "kvm"@
    }
}

/// The machine type of a guest.
pub fn machine_for(arch: &str) -> (machine: String)
    ensures
        machine@ == machine_type(arch@),
{
    if text_eq(arch, "aarch64") {
        "virt,gic-version=3".to_owned()
    } else {
        "q35".to_owned()
    }
}

/// The acceleration backend of a guest.
pub fn accel_for(arch: &str) -> (accel: String)
    ensures
        accel@ == accelerator(arch@),
{
    if text_eq(arch, "aarch64") {
        "hvf".to_owned()
    } else {
        "kvm".to_owned()
    }
}

/// The last three bytes of a MAC address.
#[derive(Debug, Clone, Copy, PartialEq, Eq, Structural)]
pub struct MacTail {
    pub fourth: u8,
    pub fifth: u8,
    pub sixth: u8,
}

/// The MAC address with the three given bytes at its end, behind the
/// prefix `52:54:00`: six bytes in two lower-case hexadecimal digits each,
/// colons between them. The prefix makes it a locally administered unicast
/// address.
pub open spec fn mac_text(tail: MacTail) -> Seq<char> {
    "52:54:00:"@ + hex_pair(tail.fourth) + ":"@ + hex_pair(tail.fifth) + ":"@ + hex_pair(
        tail.sixth,
    )
}

/// The MAC address with the three given bytes at its end.
pub fn mac_address(tail: MacTail) -> (mac: String)
    ensures
        mac@ == mac_text(tail),
{
    let mut out: Vec<char> = Vec::new();
    push_text(&mut out, "52:54:00:");
    push_hex_pair(&mut out, tail.fourth);
    push_text(&mut out, ":");
    push_hex_pair(&mut out, tail.fifth);
    push_text(&mut out, ":");
    push_hex_pair(&mut out, tail.sixth);
    string_of(&out)
}

/// What is generated afresh for each machine: the time of creation, a
/// unique identifier, and the last three bytes of the MAC address.
#[derive(Debug, Clone)]
pub struct Identity {
    pub generated: String,
    pub uuid: String,
    pub mac_tail: MacTail,
}

/// `Identity` in contracts: every text is the sequence of its characters.
pub struct IdentityView {
    pub generated: Seq<char>,
    pub uuid: Seq<char>,
    pub mac_tail: MacTail,
}

impl View for Identity {
    type V = IdentityView;

    open spec fn view(&self) -> IdentityView {
        IdentityView { generated: self.generated@, uuid: self.uuid@, mac_tail: self.mac_tail }
    }
}

impl Identity {
    /// A fresh identity: the current time, a random identifier and three
    /// random bytes, each as the host gives it.
    pub fn mint() -> (identity: Identity)
        ensures
            host::utc_stamped(identity.generated@),
            host::uuid_shaped(identity.uuid@),
    {
        let generated = now_utc();
        let uuid = host::new_uuid();
        let fourth = host::random_byte();
        let fifth = host::random_byte();
        let sixth = host::random_byte();
        Identity { generated, uuid, mac_tail: MacTail { fourth, fifth, sixth } }
    }
}

/// The text of a path that may be unset: `default` where it is.
pub open spec fn text_or(path: Option<Seq<char>>, default: Seq<char>) -> Seq<char> {
    match path {
        Some(p) => p,
        None => default,
    }
}

/// The descriptor of a machine created from `params` in the directory
/// `root`, with the disk recorded as `disk`, the given firmware pair and
/// the given identity.
pub open spec fn descriptor(
    params: CreateParamsView,
    root: Seq<char>,
    disk: Seq<char>,
    firmware: (Seq<char>, Seq<char>),
    identity: IdentityView,
) -> VmConfigView {
    let t = topology(params.smp, params.sockets, params.cores, params.threads);
    VmConfigView {
        meta: MetaView {
            version: 1,
            generated: identity.generated,
            name: params.name,
            arch: params.arch,
            uuid: identity.uuid,
        },
        paths: PathsView { root: root, disk: disk, efi_vars: "efi_vars.fd"@ },
        hardware: HardwareView {
            cpu_model: normalized_cpu_model(params.arch, params.cpu_model),
            sockets: t.0,
            cores: t.1,
            threads: t.2,
            mem_mb: params.mem,
            machine: machine_type(params.arch),
            accel: accelerator(params.arch),
            mac: mac_text(identity.mac_tail),
        },
        firmware: FirmwareView { code: firmware.0, vars_template: firmware.1 },
        network: NetworkView {
            mode: params.net_mode,
            bridge_if: params.bridge_if,
            forwards: Forwards { ssh: 0, meye: 0 },
        },
        display: DisplayView {
            mode: params.display_mode,
            vnc: VncView {
                use_unix: params.vnc_unix,
                host: params.vnc_host,
                display: params.vnc_display,
                sock: text_or(params.vnc_sock, "vnc.sock"@),
            },
            spice: SpiceView {
                use_unix: params.spice_unix,
                addr: params.spice_addr,
                port: params.spice_port,
                disable_ticketing: params.spice_disable_ticketing,
                sock: text_or(params.spice_sock, "spice.sock"@),
            },
        },
    }
}

/// The text of a path that may be unset: `default` where it is.
pub fn path_or(path: &Option<String>, default: &str) -> (r: String)
    ensures
        r@ == text_or(option_text(*path), default@),
{
    match path {
        Some(p) => p.clone(),
        None => default.to_owned(),
    }
}

/// The descriptor of a machine created from `params`.
pub fn assemble(
    params: &CreateParams,
    root: &str,
    disk: &str,
    firmware: (String, String),
    identity: &Identity,
) -> (cfg: VmConfig)
    ensures
        cfg@ == descriptor(params@, root@, disk@, (firmware.0@, firmware.1@), identity@),
        cfg@.positive_topology(),
{
    let t = resolve_topology(params.smp, params.sockets, params.cores, params.threads);
    VmConfig {
        meta: Meta {
            version: 1,
            generated: identity.generated.clone(),
            name: params.name.clone(),
            arch: params.arch.clone(),
            uuid: identity.uuid.clone(),
        },
        paths: Paths {
            root: root.to_owned(),
            disk: disk.to_owned(),
            efi_vars: "efi_vars.fd".to_owned(),
        },
        hardware: Hardware {
            cpu_model: normalize_cpu_model(params.arch.as_str(), params.cpu_model.as_str()),
            sockets: t.0,
            cores: t.1,
            threads: t.2,
            mem_mb: params.mem,
            machine: machine_for(params.arch.as_str()),
            accel: accel_for(params.arch.as_str()),
            mac: mac_address(identity.mac_tail),
        },
        firmware: Firmware { code: firmware.0, vars_template: firmware.1 },
        network: Network {
            mode: params.net_mode.clone(),
            bridge_if: params.bridge_if.clone(),
            forwards: Forwards { ssh: 0, meye: 0 },
        },
        display: Display {
            mode: params.display_mode.clone(),
            vnc: Vnc {
                use_unix: params.vnc_unix,
                host: params.vnc_host.clone(),
                display: params.vnc_display,
                sock: path_or(&params.vnc_sock, "vnc.sock"),
            },
            spice: Spice {
                use_unix: params.spice_unix,
                addr: params.spice_addr.clone(),
                port: params.spice_port,
                disable_ticketing: params.spice_disable_ticketing,
                sock: path_or(&params.spice_sock, "spice.sock"),
            },
        },
    }
}

/// Whether a request names a supported architecture and known modes.
pub open spec fn valid_request(params: CreateParamsView) -> bool {
    &&& known_arch(params.arch)
    &&& known_network_mode(params.net_mode)
    &&& known_display_mode(params.display_mode)
}

/// The descriptor of every request has at least one socket, core and
/// thread, and so at least one virtual CPU, whatever was asked for.
pub proof fn lemma_descriptor_has_vcpu(
    params: CreateParamsView,
    root: Seq<char>,
    disk: Seq<char>,
    firmware: (Seq<char>, Seq<char>),
    identity: IdentityView,
)
    ensures
        descriptor(params, root, disk, firmware, identity).positive_topology(),
        descriptor(params, root, disk, firmware, identity).vcpus() >= 1,
{
    lemma_topology_positive(params.smp, params.sockets, params.cores, params.threads);
}

/// The descriptor of a valid request is well formed, whatever its root,
/// disk, firmware and identity.
pub proof fn lemma_descriptor_well_formed(
    params: CreateParamsView,
    root: Seq<char>,
    disk: Seq<char>,
    firmware: (Seq<char>, Seq<char>),
    identity: IdentityView,
)
    requires
        valid_request(params),
    ensures
        descriptor(params, root, disk, firmware, identity).well_formed(),
{
    lemma_topology_positive(params.smp, params.sockets, params.cores, params.threads);
}

/// How far the creation of a machine has come: what it waits for.
#[derive(Debug, Clone, Copy, PartialEq, Eq, Structural)]
pub enum CreateStage {
    /// The directory of the machine is being created.
    AwaitDirectory,
    /// The disk-image tool is running.
    AwaitDiskTool,
    /// The hypervisor executable is being looked for.
    AwaitBinary,
    /// The firmware is being looked for.
    AwaitFirmware,
    /// The descriptor is being written.
    AwaitPersist,
    /// The creation is over, well or badly.
    Finished,
}

/// The creation of one machine, in progress.
#[derive(Debug, Clone)]
pub struct Creation {
    pub params: CreateParams,
    /// Root directory of the machine.
    pub root: String,
    /// The disk image as it is recorded in the descriptor.
    pub disk: String,
    /// The disk image as it is found on the host: `disk` under `root`.
    pub disk_path: String,
    pub stage: CreateStage,
}

/// What the host reports back once it has carried out an action.
#[derive(Debug)]
pub enum CreateEvent {
    /// The directory of the machine exists now; `disk_present` tells
    /// whether the disk image does.
    DirectoryReady { disk_present: bool },
    /// The disk-image tool has run; `success` tells whether its exit status
    /// was zero.
    DiskToolExited { success: bool },
    /// The search for the hypervisor executable has ended.
    BinaryPicked(Result<String, QvmError>),
    /// The search for the firmware has ended, and a fresh identity was
    /// generated.
    FirmwareLocated { located: Result<(String, String), QvmError>, identity: Identity },
    /// The descriptor has been written.
    Persisted,
    /// The action could not be carried out.
    Failed(QvmError),
}

/// What the host is to do next.
#[derive(Debug, Clone)]
pub enum CreateAction {
    /// Create the directory `root` with all its parents, then tell whether
    /// anything exists at `disk`.
    CreateDirectory { root: String, disk: String },
    /// Run the disk-image tool to create a qcow2 image of `size` at `disk`.
    RunDiskTool { disk: String, size: String },
    /// Look for the hypervisor executable of `arch`. Where `missing_disk`
    /// is set, note to the operator that there is no disk image at that
    /// path and that none was asked for.
    PickBinary { arch: String, missing_disk: Option<String> },
    /// Look for the firmware of `arch` from the executable `binary`, and
    /// generate a fresh identity.
    LocateFirmware { binary: String, arch: String },
    /// Write the descriptor. Where `fallback` is set, warn the operator
    /// that the search for firmware failed in this way and that the default
    /// pair was taken, unchecked.
    Persist { config: VmConfig, fallback: Option<QvmError> },
    /// Tell the operator that the machine `name` was created at `root`.
    /// The creation is over.
    Report { name: String, root: String },
    /// Report the failure. The creation is over.
    Fail(QvmError),
}

/// `Creation` in contracts: every text is the sequence of its characters.
pub struct CreationView {
    pub params: CreateParamsView,
    pub root: Seq<char>,
    pub disk: Seq<char>,
    pub disk_path: Seq<char>,
    pub stage: CreateStage,
}

/// `CreateEvent` in contracts: every text is the sequence of its characters.
pub enum CreateEventView {
    DirectoryReady { disk_present: bool },
    DiskToolExited { success: bool },
    BinaryPicked(Result<Seq<char>, ErrorView>),
    FirmwareLocated { located: Result<(Seq<char>, Seq<char>), ErrorView>, identity: IdentityView },
    Persisted,
    Failed(ErrorView),
}

/// `CreateAction` in contracts: every text is the sequence of its characters.
pub enum CreateActionView {
    CreateDirectory { root: Seq<char>, disk: Seq<char> },
    RunDiskTool { disk: Seq<char>, size: Seq<char> },
    PickBinary { arch: Seq<char>, missing_disk: Option<Seq<char>> },
    LocateFirmware { binary: Seq<char>, arch: Seq<char> },
    Persist { config: VmConfigView, fallback: Option<ErrorView> },
    Report { name: Seq<char>, root: Seq<char> },
    Fail(ErrorView),
}

impl View for Creation {
    type V = CreationView;

    open spec fn view(&self) -> CreationView {
        CreationView {
            params: self.params@,
            root: self.root@,
            disk: self.disk@,
            disk_path: self.disk_path@,
            stage: self.stage,
        }
    }
}

impl View for CreateEvent {
    type V = CreateEventView;

    open spec fn view(&self) -> CreateEventView {
        match self {
            CreateEvent::DirectoryReady { disk_present } => CreateEventView::DirectoryReady {
                disk_present: *disk_present,
            },
            CreateEvent::DiskToolExited { success } => CreateEventView::DiskToolExited {
                success: *success,
            },
            CreateEvent::BinaryPicked(r) => CreateEventView::BinaryPicked(text_result(*r)),
            CreateEvent::FirmwareLocated { located, identity } => CreateEventView::FirmwareLocated {
                located: pair_result(*located),
                identity: identity@,
            },
            CreateEvent::Persisted => CreateEventView::Persisted,
            CreateEvent::Failed(e) => CreateEventView::Failed(e@),
        }
    }
}

impl View for CreateAction {
    type V = CreateActionView;

    open spec fn view(&self) -> CreateActionView {
        match self {
            CreateAction::CreateDirectory { root, disk } => CreateActionView::CreateDirectory {
                root: root@,
                disk: disk@,
            },
            CreateAction::RunDiskTool { disk, size } => CreateActionView::RunDiskTool {
                disk: disk@,
                size: size@,
            },
            CreateAction::PickBinary { arch, missing_disk } => CreateActionView::PickBinary {
                arch: arch@,
                missing_disk: option_text(*missing_disk),
            },
            CreateAction::LocateFirmware { binary, arch } => CreateActionView::LocateFirmware {
                binary: binary@,
                arch: arch@,
            },
            CreateAction::Persist { config, fallback } => CreateActionView::Persist {
                config: config@,
                fallback: option_error(*fallback),
            },
            CreateAction::Report { name, root } => CreateActionView::Report {
                name: name@,
                root: root@,
            },
            CreateAction::Fail(e) => CreateActionView::Fail(e@),
        }
    }
}

/// The disk image as it is recorded: as asked, or `disk.qcow2`.
pub open spec fn recorded_disk(disk: Option<Seq<char>>) -> Seq<char> {
    text_or(disk, "disk.qcow2"@)
}

/// The firmware pair that is recorded: the one that was found, or the
/// default pair of the architecture where the search failed.
pub open spec fn recorded_firmware(
    located: Result<(Seq<char>, Seq<char>), ErrorView>,
    arch: Seq<char>,
) -> (Seq<char>, Seq<char>) {
    match located {
        Ok(pair) => pair,
        Err(_) => default_firmware(arch),
    }
}

/// The failure of the search for firmware, if it failed.
pub open spec fn firmware_fallback(located: Result<(Seq<char>, Seq<char>), ErrorView>) -> Option<
    ErrorView,
> {
    match located {
        Ok(_) => None,
        Err(e) => Some(e),
    }
}

impl CreationView {
    /// The creation at another stage.
    pub open spec fn at(self, stage: CreateStage) -> CreationView {
        CreationView {
            params: self.params,
            root: self.root,
            disk: self.disk,
            disk_path: self.disk_path,
            stage: stage,
        }
    }

    /// The creation ends with a failure.
    pub open spec fn fail(self, e: ErrorView) -> (CreationView, CreateActionView) {
        (self.at(CreateStage::Finished), CreateActionView::Fail(e))
    }

    /// The disk is settled; the hypervisor executable is looked for.
    pub open spec fn pick_binary(self, missing_disk: Option<Seq<char>>) -> (
        CreationView,
        CreateActionView,
    ) {
        (
            self.at(CreateStage::AwaitBinary),
            CreateActionView::PickBinary { arch: self.params.arch, missing_disk: missing_disk },
        )
    }

    /// What holds of a creation at every stage: the disk is recorded as
    /// asked, it is looked for under the root, and the disk-image tool runs
    /// only where a size was asked for.
    pub open spec fn consistent(self) -> bool {
        &&& self.disk == recorded_disk(self.params.disk)
        &&& self.disk_path == resolved(self.root, self.disk)
        &&& (self.stage == CreateStage::AwaitDiskTool ==> self.params.disk_size is Some)
    }

    /// The actions that answer a run of events, in order.
    pub open spec fn run(self, events: Seq<CreateEventView>) -> Seq<CreateActionView>
        decreases events.len(),
    {
        if events.len() == 0 {
            seq![]
        } else {
            let step = self.advance(events[0]);
            seq![step.1] + step.0.run(events.skip(1))
        }
    }

    /// The creation after an event, and what the host is to do next.
    ///
    /// The directory comes first. Where a disk image is there, or none was
    /// asked for, the disk is settled, with a note in the second case; else
    /// the disk-image tool runs, and its failure ends the creation with
    /// `DiskProvisioning`. Then the hypervisor executable is looked for:
    /// its failure ends the creation. Then the firmware: its failure does
    /// not, the default pair is recorded and the failure handed on as a
    /// warning. Then the descriptor is written and the creation reported.
    /// `Failed` ends the creation at any stage with the failure it brings.
    /// An event that was not waited for ends it with `out_of_turn`.
    pub open spec fn advance(self, event: CreateEventView) -> (CreationView, CreateActionView) {
        match event {
            CreateEventView::Failed(e) => if self.stage == CreateStage::Finished {
                self.fail(out_of_turn())
            } else {
                self.fail(e)
            },
            CreateEventView::DirectoryReady { disk_present } => if self.stage
                != CreateStage::AwaitDirectory {
                self.fail(out_of_turn())
            } else if disk_present {
                self.pick_binary(None)
            } else {
                match self.params.disk_size {
                    Some(size) => (
                        self.at(CreateStage::AwaitDiskTool),
                        CreateActionView::RunDiskTool { disk: self.disk_path, size: size },
                    ),
                    None => self.pick_binary(Some(self.disk_path)),
                }
            },
            CreateEventView::DiskToolExited { success } => if self.stage
                != CreateStage::AwaitDiskTool {
                self.fail(out_of_turn())
            } else if success {
                self.pick_binary(None)
            } else {
                match self.params.disk_size {
                    Some(size) => self.fail(ErrorView::DiskProvisioning { size: size }),
                    None => self.fail(out_of_turn()),
                }
            },
            CreateEventView::BinaryPicked(picked) => if self.stage != CreateStage::AwaitBinary {
                self.fail(out_of_turn())
            } else {
                match picked {
                    Ok(binary) => (
                        self.at(CreateStage::AwaitFirmware),
                        CreateActionView::LocateFirmware { binary: binary, arch: self.params.arch },
                    ),
                    Err(e) => self.fail(e),
                }
            },
            CreateEventView::FirmwareLocated { located, identity } => if self.stage
                != CreateStage::AwaitFirmware {
                self.fail(out_of_turn())
            } else {
                (
                    self.at(CreateStage::AwaitPersist),
                    CreateActionView::Persist {
                        config: descriptor(
                            self.params,
                            self.root,
                            self.disk,
                            recorded_firmware(located, self.params.arch),
                            identity,
                        ),
                        fallback: firmware_fallback(located),
                    },
                )
            },
            CreateEventView::Persisted => if self.stage != CreateStage::AwaitPersist {
                self.fail(out_of_turn())
            } else {
                (
                    self.at(CreateStage::Finished),
                    CreateActionView::Report { name: self.params.name, root: self.root },
                )
            },
        }
    }
}

/// The creation of a machine as it begins, for each answer to the question
/// of the home directory: the root of the machine is named after it under
/// the storage root, the disk is resolved under that root, and the
/// directory is to be created. Without a home directory nothing begins.
pub open spec fn creation_begun(params: CreateParamsView, home: Option<Seq<char>>) -> Result<
    (CreationView, CreateActionView),
    ErrorView,
> {
    match home {
        None => Err(ErrorView::Environment),
        Some(h) => {
            let root = vm_root(h, params.name);
            let disk = recorded_disk(params.disk);
            let disk_path = resolved(root, disk);
            Ok(
                (
                    CreationView {
                        params: params,
                        root: root,
                        disk: disk,
                        disk_path: disk_path,
                        stage: CreateStage::AwaitDirectory,
                    },
                    CreateActionView::CreateDirectory { root: root, disk: disk_path },
                ),
            )
        },
    }
}

/// A creation that has begun, or the failure to begin, by its view.
pub open spec fn begun_view(r: Result<(Creation, CreateAction), QvmError>) -> Result<
    (CreationView, CreateActionView),
    ErrorView,
> {
    match r {
        Ok(pair) => Ok((pair.0@, pair.1@)),
        Err(e) => Err(e@),
    }
}

impl Creation {
    /// Begins the creation of a machine, for a given answer to the question
    /// of the home directory.
    pub fn begin(params: CreateParams, home: Option<String>) -> (r: Result<
        (Creation, CreateAction),
        QvmError,
    >)
        ensures
            begun_view(r) == creation_begun(params@, option_text(home)),
    {
        match home {
            None => Err(QvmError::Environment),
            Some(h) => {
                let root = vm_root_in(h.as_str(), params.name.as_str());
                let disk = path_or(&params.disk, "disk.qcow2");
                let disk_path = resolve_under_root(root.as_str(), disk.as_str());
                let action = CreateAction::CreateDirectory {
                    root: root.clone(),
                    disk: disk_path.clone(),
                };
                let creation = Creation {
                    params,
                    root,
                    disk,
                    disk_path,
                    stage: CreateStage::AwaitDirectory,
                };
                Ok((creation, action))
            },
        }
    }

    fn fail(self, e: QvmError) -> (r: (Creation, CreateAction))
        ensures
            (r.0@, r.1@) == self@.fail(e@),
    {
        let mut next = self;
        next.stage = CreateStage::Finished;
        (next, CreateAction::Fail(e))
    }

    fn pick_binary(self, missing_disk: Option<String>) -> (r: (Creation, CreateAction))
        ensures
            (r.0@, r.1@) == self@.pick_binary(option_text(missing_disk)),
    {
        let arch = self.params.arch.clone();
        let mut next = self;
        next.stage = CreateStage::AwaitBinary;
        (next, CreateAction::PickBinary { arch, missing_disk })
    }

    /// The creation after an event, and what the host is to do next.
    pub fn advance(self, event: CreateEvent) -> (r: (Creation, CreateAction))
        ensures
            (r.0@, r.1@) == self@.advance(event@),
    {
        match event {
            CreateEvent::Failed(e) => {
                if self.stage == CreateStage::Finished {
                    self.fail(out_of_turn_error())
                } else {
                    self.fail(e)
                }
            },
            CreateEvent::DirectoryReady { disk_present } => {
                if self.stage != CreateStage::AwaitDirectory {
                    self.fail(out_of_turn_error())
                } else if disk_present {
                    self.pick_binary(None)
                } else {
                    match &self.params.disk_size {
                        Some(size) => {
                            let action = CreateAction::RunDiskTool {
                                disk: self.disk_path.clone(),
                                size: size.clone(),
                            };
                            let mut next = self;
                            next.stage = CreateStage::AwaitDiskTool;
                            (next, action)
                        },
                        None => {
                            let missing = self.disk_path.clone();
                            self.pick_binary(Some(missing))
                        },
                    }
                }
            },
            CreateEvent::DiskToolExited { success } => {
                if self.stage != CreateStage::AwaitDiskTool {
                    self.fail(out_of_turn_error())
                } else if success {
                    self.pick_binary(None)
                } else {
                    match &self.params.disk_size {
                        Some(size) => {
                            let e = QvmError::DiskProvisioning { size: size.clone() };
                            self.fail(e)
                        },
                        None => self.fail(out_of_turn_error()),
                    }
                }
            },
            CreateEvent::BinaryPicked(picked) => {
                if self.stage != CreateStage::AwaitBinary {
                    self.fail(out_of_turn_error())
                } else {
                    match picked {
                        Ok(binary) => {
                            let action = CreateAction::LocateFirmware {
                                binary,
                                arch: self.params.arch.clone(),
                            };
                            let mut next = self;
                            next.stage = CreateStage::AwaitFirmware;
                            (next, action)
                        },
                        Err(e) => self.fail(e),
                    }
                }
            },
            CreateEvent::FirmwareLocated { located, identity } => {
                if self.stage != CreateStage::AwaitFirmware {
                    self.fail(out_of_turn_error())
                } else {
                    let (firmware, fallback) = match located {
                        Ok(pair) => (pair, None),
                        Err(e) => (get_default_firmware_paths(self.params.arch.as_str()), Some(e)),
                    };
                    let config = assemble(
                        &self.params,
                        self.root.as_str(),
                        self.disk.as_str(),
                        firmware,
                        &identity,
                    );
                    let mut next = self;
                    next.stage = CreateStage::AwaitPersist;
                    (next, CreateAction::Persist { config, fallback })
                }
            },
            CreateEvent::Persisted => {
                if self.stage != CreateStage::AwaitPersist {
                    self.fail(out_of_turn_error())
                } else {
                    let action = CreateAction::Report {
                        name: self.params.name.clone(),
                        root: self.root.clone(),
                    };
                    let mut next = self;
                    next.stage = CreateStage::Finished;
                    (next, action)
                }
            },
        }
    }
}

/// The creator of machines.
#[derive(Debug, Clone, Copy, PartialEq, Eq, Structural)]
pub struct VmCreator;

impl VmCreator {
    /// Begins the creation of a machine from `params`: asks the host for
    /// the home directory and gives back the creation in progress with its
    /// first action, or `Environment` where there is no home directory.
    /// The host carries out each action and hands the event back to
    /// `Creation::advance`, until the action is `Report` or `Fail`.
    pub fn create_vm(params: CreateParams) -> (r: Result<(Creation, CreateAction), QvmError>)
        ensures
            exists|home: Option<Seq<char>>| begun_view(r) == creation_begun(params@, home),
    {
        Creation::begin(params, host::home_dir())
    }
}

/// A creation is consistent as it begins.
pub proof fn lemma_begun_consistent(params: CreateParamsView, home: Seq<char>)
    ensures
        creation_begun(params, Some(home)) is Ok,
        creation_begun(params, Some(home))->Ok_0.0.consistent(),
{
}

/// A consistent creation stays so, whatever comes.
pub proof fn lemma_advance_consistent(c: CreationView, event: CreateEventView)
    requires
        c.consistent(),
    ensures
        c.advance(event).0.consistent(),
{
}

/// Every event of a run is answered by one action.
pub proof fn lemma_run_len(c: CreationView, events: Seq<CreateEventView>)
    ensures
        c.run(events).len() == events.len(),
    decreases events.len(),
{
    if events.len() > 0 {
        lemma_run_len(c.advance(events[0]).0, events.skip(1));
    }
}

/// A creation that is over stays over: whatever comes, nothing is written.
pub proof fn lemma_finished_stays(c: CreationView, events: Seq<CreateEventView>, k: int)
    requires
        c.stage == CreateStage::Finished,
        0 <= k < events.len(),
    ensures
        c.run(events).len() == events.len(),
        c.run(events)[k] == CreateActionView::Fail(out_of_turn()),
    decreases events.len(),
{
    lemma_run_len(c, events);
    lemma_run_len(c.advance(events[0]).0, events.skip(1));
    if k > 0 {
        lemma_finished_stays(c.advance(events[0]).0, events.skip(1), k - 1);
    }
}

/// Where the disk-image tool fails, the creation fails with
/// `DiskProvisioning`, naming the size that was asked for, and no
/// descriptor is written then or later.
pub proof fn lemma_failed_disk_tool_writes_nothing(
    c: CreationView,
    events: Seq<CreateEventView>,
    k: int,
)
    requires
        c.consistent(),
        c.stage == CreateStage::AwaitDiskTool,
        0 <= k < events.len(),
        events[0] == (CreateEventView::DiskToolExited { success: false }),
    ensures
        c.run(events).len() == events.len(),
        c.params.disk_size matches Some(size) && c.run(events)[0] == CreateActionView::Fail(
            ErrorView::DiskProvisioning { size: size },
        ),
        !(c.run(events)[k] is Persist),
{
    lemma_run_len(c, events);
    lemma_run_len(c.advance(events[0]).0, events.skip(1));
    if k > 0 {
        lemma_finished_stays(c.advance(events[0]).0, events.skip(1), k - 1);
    }
}

/// Where no hypervisor executable is found, the creation fails with the
/// failure of the search, and no descriptor is written then or later. So a
/// machine of an unsupported architecture is never described.
pub proof fn lemma_missing_binary_writes_nothing(
    c: CreationView,
    events: Seq<CreateEventView>,
    k: int,
    e: ErrorView,
)
    requires
        c.stage == CreateStage::AwaitBinary,
        0 <= k < events.len(),
        events[0] == CreateEventView::BinaryPicked(Err(e)),
    ensures
        c.run(events).len() == events.len(),
        c.run(events)[0] == CreateActionView::Fail(e),
        !(c.run(events)[k] is Persist),
{
    lemma_run_len(c, events);
    lemma_run_len(c.advance(events[0]).0, events.skip(1));
    if k > 0 {
        lemma_finished_stays(c.advance(events[0]).0, events.skip(1), k - 1);
    }
}

/// The descriptor that a creation writes is that of its request, in its
/// root, with the disk as recorded. It has at least one socket, core and
/// thread whatever was asked for, and it is well formed where the request
/// is valid, whether firmware was found or not.
pub proof fn lemma_written_descriptor(
    c: CreationView,
    located: Result<(Seq<char>, Seq<char>), ErrorView>,
    identity: IdentityView,
)
    requires
        c.stage == CreateStage::AwaitFirmware,
    ensures
        c.advance(CreateEventView::FirmwareLocated { located, identity }).1 matches CreateActionView::Persist {
            config,
            fallback,
        } && config.meta.name == c.params.name && config.paths.root == c.root && config.paths.disk
            == c.disk && config.hardware.cpu_model == normalized_cpu_model(
            c.params.arch,
            c.params.cpu_model,
        ) && (located is Err ==> (config.firmware.code, config.firmware.vars_template)
            == default_firmware(c.params.arch)) && config.positive_topology() && (valid_request(
            c.params,
        ) ==> config.well_formed()),
{
    lemma_topology_positive(c.params.smp, c.params.sockets, c.params.cores, c.params.threads);
}

/// Whatever is asked for and whatever the host reports, no descriptor is
/// written with a socket, core or thread count of zero: every descriptor
/// that any run of a creation hands over to be written has at least one of
/// each, and so at least one virtual CPU.
pub proof fn lemma_persisted_has_vcpu(c: CreationView, events: Seq<CreateEventView>, k: int)
    requires
        0 <= k < events.len(),
    ensures
        c.run(events).len() == events.len(),
        c.run(events)[k] matches CreateActionView::Persist { config, fallback }
            ==> config.positive_topology() && config.vcpus() >= 1,
    decreases events.len(),
{
    lemma_run_len(c, events);
    let step = c.advance(events[0]);
    lemma_run_len(step.0, events.skip(1));
    if k == 0 {
        if let CreateActionView::Persist { config, fallback } = step.1 {
            lemma_topology_positive(
                c.params.smp,
                c.params.sockets,
                c.params.cores,
                c.params.threads,
            );
        }
    } else {
        lemma_persisted_has_vcpu(step.0, events.skip(1), k - 1);
    }
}

} // verus!
