//! The failures that the library reports, each with the text shown to the
//! operator.

use crate::text::{push_text, string_of};
use vstd::prelude::*;

verus! {

/// A failure of a lifecycle operation.
#[derive(Debug, Clone)]
pub enum QvmError {
    /// The home directory, and with it the storage root, cannot be determined.
    Environment,
    /// The guest architecture is none of those supported.
    UnsupportedArch { arch: String },
    /// No hypervisor executable was found for the architecture.
    BinaryNotFound { arch: String },
    /// No firmware pair was found for the architecture.
    FirmwareNotFound { arch: String },
    /// No machine of this name exists under the storage root.
    NotFound { name: String, root: String },
    /// The machine is running and so cannot be deleted.
    VmRunning { name: String },
    /// The disk-image tool failed to create an image of the requested size.
    DiskProvisioning { size: String },
    /// The display mode of a descriptor is none of those supported.
    UnsupportedDisplayMode { mode: String },
    /// The descriptor is missing or malformed.
    Parse { detail: String },
    /// The file system or an external tool failed.
    Io { detail: String },
}

/// A failure, with its texts as sequences of characters.
pub enum ErrorView {
    Environment,
    UnsupportedArch { arch: Seq<char> },
    BinaryNotFound { arch: Seq<char> },
    FirmwareNotFound { arch: Seq<char> },
    NotFound { name: Seq<char>, root: Seq<char> },
    VmRunning { name: Seq<char> },
    DiskProvisioning { size: Seq<char> },
    UnsupportedDisplayMode { mode: Seq<char> },
    Parse { detail: Seq<char> },
    Io { detail: Seq<char> },
}

impl View for QvmError {
    type V = ErrorView;

    open spec fn view(&self) -> ErrorView {
        match self {
            QvmError::Environment => ErrorView::Environment,
            QvmError::UnsupportedArch { arch } => ErrorView::UnsupportedArch { arch: arch@ },
            QvmError::BinaryNotFound { arch } => ErrorView::BinaryNotFound { arch: arch@ },
            QvmError::FirmwareNotFound { arch } => ErrorView::FirmwareNotFound { arch: arch@ },
            QvmError::NotFound { name, root } => ErrorView::NotFound { name: name@, root: root@ },
            QvmError::VmRunning { name } => ErrorView::VmRunning { name: name@ },
            QvmError::DiskProvisioning { size } => ErrorView::DiskProvisioning { size: size@ },
            QvmError::UnsupportedDisplayMode { mode } => ErrorView::UnsupportedDisplayMode {
                mode: mode@,
            },
            QvmError::Parse { detail } => ErrorView::Parse { detail: detail@ },
            QvmError::Io { detail } => ErrorView::Io { detail: detail@ },
        }
    }
}

impl ErrorView {
    /// The text shown to the operator for this failure.
    pub open spec fn message(self) -> Seq<char> {
        match self {
            ErrorView::Environment => "no home directory found"@,
            ErrorView::UnsupportedArch { arch } => "Unsupported arch '"@ + arch + "'"@,
            ErrorView::BinaryNotFound { arch } => "qemu-system-"@ + arch + " not found (Nix)"@,
            ErrorView::FirmwareNotFound { arch } => "UEFI firmware not found in Nix paths for "@
                + arch,
            ErrorView::NotFound { name, root } => "VM '"@ + name + "' not found in "@ + root,
            ErrorView::VmRunning { name } => "Cannot delete VM '"@ + name
                + "': VM is currently running. Stop it first with 'qvm stop "@ + name + "'"@,
            ErrorView::DiskProvisioning { size } => "qemu-img failed to create disk (size: "@
                + size + ")"@,
            ErrorView::UnsupportedDisplayMode { mode } => "Unsupported display mode "@ + mode,
            ErrorView::Parse { detail } => detail,
            ErrorView::Io { detail } => detail,
        }
    }
}

/// A text or a failure, by its characters.
pub open spec fn text_result(r: Result<String, QvmError>) -> Result<Seq<char>, ErrorView> {
    match r {
        Ok(s) => Ok(s@),
        Err(e) => Err(e@),
    }
}

/// A text, if there is one, by its characters.
pub open spec fn option_text(o: Option<String>) -> Option<Seq<char>> {
    match o {
        Some(s) => Some(s@),
        None => None,
    }
}

/// A failure, if there is one, by its view.
pub open spec fn option_error(e: Option<QvmError>) -> Option<ErrorView> {
    match e {
        Some(e) => Some(e@),
        None => None,
    }
}

/// The failure that answers an event which a creation or deletion did not
/// wait for.
pub open spec fn out_of_turn() -> ErrorView {
    ErrorView::Io { detail: "event out of turn"@ }
}

/// The failure that answers an event which was not waited for.
pub fn out_of_turn_error() -> (e: QvmError)
    ensures
        e@ == out_of_turn(),
{
    QvmError::Io { detail: "event out of turn".to_owned() }
}

impl QvmError {
    /// The text shown to the operator for this failure.
    pub fn message(&self) -> (text: String)
        ensures
            text@ == self@.message(),
    {
        let mut out: Vec<char> = Vec::new();
        match self {
            QvmError::Environment => {
                push_text(&mut out, "no home directory found");
            },
            QvmError::UnsupportedArch { arch } => {
                push_text(&mut out, "Unsupported arch '");
                push_text(&mut out, arch.as_str());
                push_text(&mut out, "'");
            },
            QvmError::BinaryNotFound { arch } => {
                push_text(&mut out, "qemu-system-");
                push_text(&mut out, arch.as_str());
                push_text(&mut out, " not found (Nix)");
            },
            QvmError::FirmwareNotFound { arch } => {
                push_text(&mut out, "UEFI firmware not found in Nix paths for ");
                push_text(&mut out, arch.as_str());
            },
            QvmError::NotFound { name, root } => {
                push_text(&mut out, "VM '");
                push_text(&mut out, name.as_str());
                push_text(&mut out, "' not found in ");
                push_text(&mut out, root.as_str());
            },
            QvmError::VmRunning { name } => {
                push_text(&mut out, "Cannot delete VM '");
                push_text(&mut out, name.as_str());
                push_text(&mut out, "': VM is currently running. Stop it first with 'qvm stop ");
                push_text(&mut out, name.as_str());
                push_text(&mut out, "'");
            },
            QvmError::DiskProvisioning { size } => {
                push_text(&mut out, "qemu-img failed to create disk (size: ");
                push_text(&mut out, size.as_str());
                push_text(&mut out, ")");
            },
            QvmError::UnsupportedDisplayMode { mode } => {
                push_text(&mut out, "Unsupported display mode ");
                push_text(&mut out, mode.as_str());
            },
            QvmError::Parse { detail } => {
                push_text(&mut out, detail.as_str());
            },
            QvmError::Io { detail } => {
                push_text(&mut out, detail.as_str());
            },
        }
        string_of(&out)
    }
}

} // verus!
