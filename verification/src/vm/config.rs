//! The descriptor store: one file per machine, `vm.json` in the directory
//! of the machine. Reading and writing the file is the host's part; what a
//! failed load means is decided here.

use crate::error::{ErrorView, QvmError};
use vstd::prelude::*;

verus! {

/// Why the descriptor of a machine could not be loaded.
#[derive(Debug, Clone)]
pub enum LoadFault {
    /// There is no descriptor file.
    Absent,
    /// There is one, and it could not be read; `detail` is what the host
    /// says of it.
    Unreadable { detail: String },
    /// It was read, and it is no descriptor: the document is malformed or
    /// lacks a field. `detail` is what the reader says of it.
    Malformed { detail: String },
}

/// `LoadFault` in contracts: every text is the sequence of its characters.
pub enum LoadFaultView {
    Absent,
    Unreadable { detail: Seq<char> },
    Malformed { detail: Seq<char> },
}

impl View for LoadFault {
    type V = LoadFaultView;

    open spec fn view(&self) -> LoadFaultView {
        match self {
            LoadFault::Absent => LoadFaultView::Absent,
            LoadFault::Unreadable { detail } => LoadFaultView::Unreadable { detail: detail@ },
            LoadFault::Malformed { detail } => LoadFaultView::Malformed { detail: detail@ },
        }
    }
}

/// The failure of loading the descriptor of the machine `name` under the
/// storage root `storage`: `NotFound` where there is no descriptor, `Parse`
/// where it is malformed, `Io` where it could not be read.
pub open spec fn load_failure_of(name: Seq<char>, storage: Seq<char>, fault: LoadFaultView)
    -> ErrorView {
    match fault {
        LoadFaultView::Absent => ErrorView::NotFound { name: name, root: storage },
        LoadFaultView::Unreadable { detail } => ErrorView::Io { detail: detail },
        LoadFaultView::Malformed { detail } => ErrorView::Parse { detail: detail },
    }
}

/// The failure of loading the descriptor of the machine `name` under the
/// storage root `storage`.
pub fn load_failure(name: &str, storage: &str, fault: LoadFault) -> (e: QvmError)
    ensures
        e@ == load_failure_of(name@, storage@, fault@),
{
    match fault {
        LoadFault::Absent => QvmError::NotFound { name: name.to_owned(), root: storage.to_owned() },
        LoadFault::Unreadable { detail } => QvmError::Io { detail },
        LoadFault::Malformed { detail } => QvmError::Parse { detail },
    }
}

} // verus!
