//! The descriptor of a machine: one document per machine, the single source
//! of truth for its configuration. Paths are held as text; a relative path
//! is meant under the root directory of the machine.

use crate::text::text_eq;
use vstd::prelude::*;

verus! {

/// The descriptor of a machine.
#[derive(Debug, Clone)]
pub struct VmConfig {
    pub meta: Meta,
    pub paths: Paths,
    pub hardware: Hardware,
    pub firmware: Firmware,
    pub network: Network,
    pub display: Display,
}

/// Identity of the machine.
#[derive(Debug, Clone)]
pub struct Meta {
    /// Version of the schema, 1 at present.
    pub version: u32,
    /// When the descriptor was created, as an RFC 3339 timestamp in UTC.
    pub generated: String,
    /// Name of the machine; its directory is named after it.
    pub name: String,
    /// Guest architecture: `aarch64` or `x86_64`.
    pub arch: String,
    /// Identifier generated once at creation.
    pub uuid: String,
}

/// Files of the machine.
#[derive(Debug, Clone)]
pub struct Paths {
    /// Root directory of the machine.
    pub root: String,
    /// Disk image; may be relative to the root.
    pub disk: String,
    /// Store of EFI variables; may be relative to the root.
    pub efi_vars: String,
}

/// Virtual hardware.
#[derive(Debug, Clone)]
pub struct Hardware {
    pub cpu_model: String,
    pub sockets: u32,
    pub cores: u32,
    pub threads: u32,
    pub mem_mb: u32,
    pub machine: String,
    pub accel: String,
    pub mac: String,
}

/// Firmware images, both by absolute path.
#[derive(Debug, Clone)]
pub struct Firmware {
    pub code: String,
    pub vars_template: String,
}

/// Network of the machine.
#[derive(Debug, Clone)]
pub struct Network {
    /// `vmnet-shared`, `vmnet-bridged` or `user`.
    pub mode: String,
    /// Interface to bridge to; meaningful in bridged mode only.
    pub bridge_if: String,
    pub forwards: Forwards,
}

/// Ports forwarded from the host.
#[derive(Debug, Clone)]
pub struct Forwards {
    pub ssh: u16,
    pub meye: u16,
}

/// Display of the machine. Both sub-records are always present; the mode
/// says which one is in use.
#[derive(Debug, Clone)]
pub struct Display {
    /// `cocoa`, `vnc`, `spice` or `headless`.
    pub mode: String,
    pub vnc: Vnc,
    pub spice: Spice,
}

/// Settings of the VNC display.
#[derive(Debug, Clone)]
pub struct Vnc {
    pub use_unix: bool,
    pub host: String,
    pub display: u8,
    /// Socket; may be relative to the root.
    pub sock: String,
}

/// Settings of the SPICE display.
#[derive(Debug, Clone)]
pub struct Spice {
    pub use_unix: bool,
    pub addr: String,
    pub port: u16,
    pub disable_ticketing: bool,
    /// Socket; may be relative to the root.
    pub sock: String,
}

/// `Meta` in contracts: every text is the sequence of its characters.
pub struct MetaView {
    pub version: u32,
    pub generated: Seq<char>,
    pub name: Seq<char>,
    pub arch: Seq<char>,
    pub uuid: Seq<char>,
}

/// `Paths` in contracts: every text is the sequence of its characters.
pub struct PathsView {
    pub root: Seq<char>,
    pub disk: Seq<char>,
    pub efi_vars: Seq<char>,
}

/// `Hardware` in contracts: every text is the sequence of its characters.
pub struct HardwareView {
    pub cpu_model: Seq<char>,
    pub sockets: u32,
    pub cores: u32,
    pub threads: u32,
    pub mem_mb: u32,
    pub machine: Seq<char>,
    pub accel: Seq<char>,
    pub mac: Seq<char>,
}

/// `Firmware` in contracts: every text is the sequence of its characters.
pub struct FirmwareView {
    pub code: Seq<char>,
    pub vars_template: Seq<char>,
}

/// `Network` in contracts: every text is the sequence of its characters.
pub struct NetworkView {
    pub mode: Seq<char>,
    pub bridge_if: Seq<char>,
    pub forwards: Forwards,
}

/// `Vnc` in contracts: every text is the sequence of its characters.
pub struct VncView {
    pub use_unix: bool,
    pub host: Seq<char>,
    pub display: u8,
    pub sock: Seq<char>,
}

/// `Spice` in contracts: every text is the sequence of its characters.
pub struct SpiceView {
    pub use_unix: bool,
    pub addr: Seq<char>,
    pub port: u16,
    pub disable_ticketing: bool,
    pub sock: Seq<char>,
}

/// `Display` in contracts: every text is the sequence of its characters.
pub struct DisplayView {
    pub mode: Seq<char>,
    pub vnc: VncView,
    pub spice: SpiceView,
}

/// `VmConfig` in contracts: every text is the sequence of its characters.
pub struct VmConfigView {
    pub meta: MetaView,
    pub paths: PathsView,
    pub hardware: HardwareView,
    pub firmware: FirmwareView,
    pub network: NetworkView,
    pub display: DisplayView,
}

impl View for Meta {
    type V = MetaView;

    open spec fn view(&self) -> MetaView {
        MetaView {
            version: self.version,
            generated: self.generated@,
            name: self.name@,
            arch: self.arch@,
            uuid: self.uuid@,
        }
    }
}

impl View for Paths {
    type V = PathsView;

    open spec fn view(&self) -> PathsView {
        PathsView { root: self.root@, disk: self.disk@, efi_vars: self.efi_vars@ }
    }
}

impl View for Hardware {
    type V = HardwareView;

    open spec fn view(&self) -> HardwareView {
        HardwareView {
            cpu_model: self.cpu_model@,
            sockets: self.sockets,
            cores: self.cores,
            threads: self.threads,
            mem_mb: self.mem_mb,
            machine: self.machine@,
            accel: self.accel@,
            mac: self.mac@,
        }
    }
}

impl View for Firmware {
    type V = FirmwareView;

    open spec fn view(&self) -> FirmwareView {
        FirmwareView { code: self.code@, vars_template: self.vars_template@ }
    }
}

impl View for Network {
    type V = NetworkView;

    open spec fn view(&self) -> NetworkView {
        NetworkView { mode: self.mode@, bridge_if: self.bridge_if@, forwards: self.forwards }
    }
}

impl View for Vnc {
    type V = VncView;

    open spec fn view(&self) -> VncView {
        VncView {
            use_unix: self.use_unix,
            host: self.host@,
            display: self.display,
            sock: self.sock@,
        }
    }
}

impl View for Spice {
    type V = SpiceView;

    open spec fn view(&self) -> SpiceView {
        SpiceView {
            use_unix: self.use_unix,
            addr: self.addr@,
            port: self.port,
            disable_ticketing: self.disable_ticketing,
            sock: self.sock@,
        }
    }
}

impl View for Display {
    type V = DisplayView;

    open spec fn view(&self) -> DisplayView {
        DisplayView { mode: self.mode@, vnc: self.vnc@, spice: self.spice@ }
    }
}

impl View for VmConfig {
    type V = VmConfigView;

    open spec fn view(&self) -> VmConfigView {
        VmConfigView {
            meta: self.meta@,
            paths: self.paths@,
            hardware: self.hardware@,
            firmware: self.firmware@,
            network: self.network@,
            display: self.display@,
        }
    }
}

impl Default for Forwards {
    /// No port is forwarded.
    fn default() -> (f: Forwards)
        ensures
            f.ssh == 0,
            f.meye == 0,
    {
        Forwards { ssh: 0, meye: 0 }
    }
}

/// Whether `arch` names a supported guest architecture.
pub open spec fn known_arch(arch: Seq<char>) -> bool {
    arch == "aarch64"@ || arch == "x86_64"@
}

/// Whether `mode` names a network mode.
pub open spec fn known_network_mode(mode: Seq<char>) -> bool {
    mode == "vmnet-shared"@ || mode == "vmnet-bridged"@ || mode == "user"@
}

/// Whether `mode` names a display mode.
pub open spec fn known_display_mode(mode: Seq<char>) -> bool {
    mode == "cocoa"@ || mode == "vnc"@ || mode == "spice"@ || mode == "headless"@
}

/// Whether `arch` names a supported guest architecture.
pub fn is_known_arch(arch: &str) -> (r: bool)
    ensures
        r == known_arch(arch@),
{
    text_eq(arch, "aarch64") || text_eq(arch, "x86_64")
}

/// Whether `mode` names a network mode.
pub fn is_known_network_mode(mode: &str) -> (r: bool)
    ensures
        r == known_network_mode(mode@),
{
    text_eq(mode, "vmnet-shared") || text_eq(mode, "vmnet-bridged") || text_eq(mode, "user")
}

/// Whether `mode` names a display mode.
pub fn is_known_display_mode(mode: &str) -> (r: bool)
    ensures
        r == known_display_mode(mode@),
{
    text_eq(mode, "cocoa") || text_eq(mode, "vnc") || text_eq(mode, "spice") || text_eq(
        mode,
        "headless",
    )
}

impl VmConfigView {
    /// What holds of every descriptor: the schema version is 1, the
    /// architecture and the two modes are among those known, and the
    /// topology has at least one socket, core and thread, so that the
    /// machine has at least one virtual CPU.
    pub open spec fn well_formed(self) -> bool {
        &&& self.meta.version == 1
        &&& known_arch(self.meta.arch)
        &&& known_network_mode(self.network.mode)
        &&& known_display_mode(self.display.mode)
        &&& self.positive_topology()
    }

    /// Whether the machine has at least one socket, at least one core in
    /// each socket and at least one thread in each core.
    pub open spec fn positive_topology(self) -> bool {
        &&& self.hardware.sockets >= 1
        &&& self.hardware.cores >= 1
        &&& self.hardware.threads >= 1
    }

    /// The number of virtual CPUs of the machine.
    pub open spec fn vcpus(self) -> int {
        self.hardware.sockets * self.hardware.cores * self.hardware.threads
    }
}

impl VmConfig {
    /// Whether the descriptor is well formed.
    pub fn is_well_formed(&self) -> (r: bool)
        ensures
            r == self@.well_formed(),
    {
        self.meta.version == 1 && is_known_arch(self.meta.arch.as_str()) && is_known_network_mode(
            self.network.mode.as_str(),
        ) && is_known_display_mode(self.display.mode.as_str()) && self.hardware.sockets >= 1
            && self.hardware.cores >= 1 && self.hardware.threads >= 1
    }
}

/// A well-formed descriptor has at least one virtual CPU.
pub proof fn lemma_well_formed_has_vcpu(cfg: VmConfigView)
    requires
        cfg.well_formed(),
    ensures
        cfg.vcpus() >= 1,
{
    assert(cfg.hardware.sockets * cfg.hardware.cores >= 1) by (nonlinear_arith)
        requires
            cfg.hardware.sockets >= 1,
            cfg.hardware.cores >= 1,
    ;
    assert(cfg.hardware.sockets * cfg.hardware.cores * cfg.hardware.threads >= 1)
        by (nonlinear_arith)
        requires
            cfg.hardware.sockets * cfg.hardware.cores >= 1,
            cfg.hardware.threads >= 1,
    ;
}

} // verus!
