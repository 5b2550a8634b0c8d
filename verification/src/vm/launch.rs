//! What a descriptor hands to the hypervisor when the machine is launched:
//! the number of virtual CPUs and the arguments for the display.

use crate::config::schema::{VmConfig, VmConfigView};
use crate::error::{ErrorView, QvmError};
use crate::text::{decimal, decimal_text, push_text, string_of, text_eq, text_views};
use crate::utils::paths::{resolve_under_root, resolved};
use vstd::prelude::*;

verus! {

/// The product of three factors, limited to `u32::MAX`.
pub open spec fn saturating_product(s: u32, c: u32, t: u32) -> int {
    if s * c * t > u32::MAX {
        u32::MAX as int
    } else {
        s * c * t
    }
}

/// The number of virtual CPUs of a topology of `s` sockets with `c` cores
/// each and `t` threads per core: their product, limited to `u32::MAX`.
pub fn _cpu_total(s: u32, c: u32, t: u32) -> (total: u32)
    ensures
        total == saturating_product(s, c, t),
{
    let sockets_by_cores: u32 = match s.checked_mul(c) {
        Some(p) => p,
        None => u32::MAX,
    };
    proof {
        if s * c > u32::MAX {
            if t == 0 {
                assert(s * c * t == 0) by (nonlinear_arith)
                    requires
                        t == 0,
                ;
            } else {
                assert(s * c * t > u32::MAX) by (nonlinear_arith)
                    requires
                        s * c > u32::MAX,
                        t >= 1,
                ;
                assert(sockets_by_cores * t >= u32::MAX) by (nonlinear_arith)
                    requires
                        sockets_by_cores == u32::MAX,
                        t >= 1,
                ;
            }
        }
    }
    match sockets_by_cores.checked_mul(t) {
        Some(p) => p,
        None => u32::MAX,
    }
}

/// The arguments that are the same for every display.
pub open spec fn base_args() -> Seq<Seq<char>> {
    seq!["-vga"@, "none"@, "-device"@, "virtio-gpu-pci"@]
}

/// How SPICE is told whether ticketing is disabled.
pub open spec fn on_off(flag: bool) -> Seq<char> {
    if flag {
        "on"@
    } else {
        "off"@
    }
}

/// What follows the address in every SPICE argument.
pub open spec fn spice_tail(disable_ticketing: bool) -> Seq<char> {
    ",disable-ticketing="@ + on_off(disable_ticketing)
        + ",image-compression=off,playback-compression=off,streaming-video=off"@
}

/// The argument that describes the VNC display of a descriptor: its socket,
/// resolved under the root, where it uses one, else its host and display
/// number.
pub open spec fn vnc_arg(cfg: VmConfigView) -> Seq<char> {
    if cfg.display.vnc.use_unix {
        "unix:"@ + resolved(cfg.paths.root, cfg.display.vnc.sock)
    } else {
        cfg.display.vnc.host + ":"@ + decimal(cfg.display.vnc.display as nat)
    }
}

/// The argument that describes the SPICE display of a descriptor.
pub open spec fn spice_arg(cfg: VmConfigView) -> Seq<char> {
    if cfg.display.spice.use_unix {
        "unix=on,addr="@ + resolved(cfg.paths.root, cfg.display.spice.sock) + spice_tail(
            cfg.display.spice.disable_ticketing,
        )
    } else {
        "addr="@ + cfg.display.spice.addr + ",port="@ + decimal(cfg.display.spice.port as nat)
            + spice_tail(cfg.display.spice.disable_ticketing)
    }
}

/// The arguments that give the hypervisor the display of a descriptor: the
/// base arguments, then those of the mode. `UnsupportedDisplayMode` for a
/// mode that is none of `cocoa`, `headless`, `vnc` and `spice`.
pub open spec fn display_args(cfg: VmConfigView) -> Result<Seq<Seq<char>>, ErrorView> {
    let mode = cfg.display.mode;
    if mode == "cocoa"@ {
        Ok(base_args() + seq!["-display"@, "cocoa"@])
    } else if mode == "headless"@ {
        Ok(base_args() + seq!["-display"@, "none"@])
    } else if mode == "vnc"@ {
        Ok(base_args() + seq!["-vnc"@, vnc_arg(cfg)])
    } else if mode == "spice"@ {
        Ok(base_args() + seq!["-spice"@, spice_arg(cfg)])
    } else {
        Err(ErrorView::UnsupportedDisplayMode { mode: mode })
    }
}

/// A list of arguments or a failure, each text by its characters.
pub open spec fn args_result(r: Result<Vec<String>, QvmError>) -> Result<
    Seq<Seq<char>>,
    ErrorView,
> {
    match r {
        Ok(args) => Ok(text_views(args@)),
        Err(e) => Err(e@),
    }
}

fn push_spice_tail(out: &mut Vec<char>, disable_ticketing: bool)
    ensures
        final(out)@ == old(out)@ + spice_tail(disable_ticketing),
{
    push_text(out, ",disable-ticketing=");
    if disable_ticketing {
        push_text(out, "on");
    } else {
        push_text(out, "off");
    }
    push_text(out, ",image-compression=off,playback-compression=off,streaming-video=off");
}

fn vnc_arg_of(cfg: &VmConfig) -> (arg: String)
    ensures
        arg@ == vnc_arg(cfg@),
{
    let mut out: Vec<char> = Vec::new();
    if cfg.display.vnc.use_unix {
        let sock = resolve_under_root(cfg.paths.root.as_str(), cfg.display.vnc.sock.as_str());
        push_text(&mut out, "unix:");
        push_text(&mut out, sock.as_str());
    } else {
        let number = decimal_text(cfg.display.vnc.display as u32);
        push_text(&mut out, cfg.display.vnc.host.as_str());
        push_text(&mut out, ":");
        push_text(&mut out, number.as_str());
    }
    string_of(&out)
}

fn spice_arg_of(cfg: &VmConfig) -> (arg: String)
    ensures
        arg@ == spice_arg(cfg@),
{
    let mut out: Vec<char> = Vec::new();
    if cfg.display.spice.use_unix {
        let sock = resolve_under_root(cfg.paths.root.as_str(), cfg.display.spice.sock.as_str());
        push_text(&mut out, "unix=on,addr=");
        push_text(&mut out, sock.as_str());
    } else {
        let port = decimal_text(cfg.display.spice.port as u32);
        push_text(&mut out, "addr=");
        push_text(&mut out, cfg.display.spice.addr.as_str());
        push_text(&mut out, ",port=");
        push_text(&mut out, port.as_str());
    }
    push_spice_tail(&mut out, cfg.display.spice.disable_ticketing);
    string_of(&out)
}

/// The arguments that give the hypervisor the display of a descriptor.
pub fn _display_args(cfg: &VmConfig) -> (r: Result<Vec<String>, QvmError>)
    ensures
        args_result(r) == display_args(cfg@),
{
    let mode = cfg.display.mode.as_str();
    let mut args: Vec<String> = Vec::new();
    args.push("-vga".to_owned());
    args.push("none".to_owned());
    args.push("-device".to_owned());
    args.push("virtio-gpu-pci".to_owned());
    if text_eq(mode, "cocoa") {
        args.push("-display".to_owned());
        args.push("cocoa".to_owned());
        assert(text_views(args@) =~= base_args() + seq!["-display"@, "cocoa"@]);
    } else if text_eq(mode, "headless") {
        args.push("-display".to_owned());
        args.push("none".to_owned());
        assert(text_views(args@) =~= base_args() + seq!["-display"@, "none"@]);
    } else if text_eq(mode, "vnc") {
        args.push("-vnc".to_owned());
        args.push(vnc_arg_of(cfg));
        assert(text_views(args@) =~= base_args() + seq!["-vnc"@, vnc_arg(cfg@)]);
    } else if text_eq(mode, "spice") {
        args.push("-spice".to_owned());
        args.push(spice_arg_of(cfg));
        assert(text_views(args@) =~= base_args() + seq!["-spice"@, spice_arg(cfg@)]);
    } else {
        return Err(QvmError::UnsupportedDisplayMode { mode: mode.to_owned() });
    }
    Ok(args)
}

} // verus!
