//! Where the machines live: the storage root, the directory of each machine
//! and the files in it.

use crate::error::{option_text, text_result, ErrorView, QvmError};
use crate::host;
use crate::host::{joined_path, path_is_absolute};
use crate::text::append_text;
use vstd::prelude::*;

verus! {

/// The storage root of a user whose home directory is `home`.
pub open spec fn storage_root(home: Seq<char>) -> Seq<char> {
    joined_path(home, "qvm"@)
}

/// The directory of the machine `name` under the storage root `storage`:
/// it is named after the machine.
pub open spec fn vm_dir(storage: Seq<char>, name: Seq<char>) -> Seq<char> {
    joined_path(storage, name + ".qvm"@)
}

/// The directory of the machine `name` under the storage root of `home`.
pub open spec fn vm_root(home: Seq<char>, name: Seq<char>) -> Seq<char> {
    vm_dir(storage_root(home), name)
}

/// `p` as it is where it is absolute, else `p` under `root`.
pub open spec fn resolved(root: Seq<char>, p: Seq<char>) -> Seq<char> {
    if path_is_absolute(p) {
        p
    } else {
        joined_path(root, p)
    }
}

/// The descriptor file of the machine whose directory is `root`.
pub open spec fn descriptor_path(root: Seq<char>) -> Seq<char> {
    joined_path(root, "vm.json"@)
}

/// The storage root, or the failure to determine it, for each answer to the
/// question of the home directory.
pub open spec fn storage_root_outcome(home: Option<Seq<char>>) -> Result<Seq<char>, ErrorView> {
    match home {
        Some(h) => Ok(storage_root(h)),
        None => Err(ErrorView::Environment),
    }
}

/// The directory of the machine `name`, or the failure to find it, for each
/// answer to the questions of the home directory and of whether a directory
/// is there under the name of the machine.
pub open spec fn vm_dir_outcome(name: Seq<char>, home: Option<Seq<char>>, present: bool) -> Result<
    Seq<char>,
    ErrorView,
> {
    match home {
        None => Err(ErrorView::Environment),
        Some(h) => if present {
            Ok(vm_root(h, name))
        } else {
            Err(ErrorView::NotFound { name: name, root: storage_root(h) })
        },
    }
}

/// The storage root of a user whose home directory is `home`.
pub fn storage_root_in(home: &str) -> (root: String)
    ensures
        root@ == storage_root(home@),
{
    host::path_join(home, "qvm")
}

/// The directory of the machine `name` under the storage root `storage`.
/// Nothing on disk is looked at.
pub fn vm_dir_in(storage: &str, name: &str) -> (dir: String)
    ensures
        dir@ == vm_dir(storage@, name@),
{
    let stem = append_text(name, ".qvm");
    host::path_join(storage, stem.as_str())
}

/// The directory of the machine `name` under the storage root of `home`.
/// Nothing on disk is looked at.
pub fn vm_root_in(home: &str, name: &str) -> (root: String)
    ensures
        root@ == vm_root(home@, name@),
{
    let storage = storage_root_in(home);
    vm_dir_in(storage.as_str(), name)
}

/// The storage root for a given answer to the question of the home
/// directory.
pub fn storage_root_for(home: Option<String>) -> (r: Result<String, QvmError>)
    ensures
        text_result(r) == storage_root_outcome(option_text(home)),
{
    match home {
        Some(h) => Ok(storage_root_in(h.as_str())),
        None => Err(QvmError::Environment),
    }
}

/// The storage root of the current user. Fails with `Environment` where no
/// home directory can be determined, and only then.
pub fn qvm_home() -> (r: Result<String, QvmError>)
    ensures
        exists|home: Option<Seq<char>>| text_result(r) == storage_root_outcome(home),
{
    storage_root_for(host::home_dir())
}

/// `p` unchanged where it is absolute, else `p` under `root`. Nothing on
/// disk is looked at.
pub fn resolve_under_root(root: &str, p: &str) -> (r: String)
    ensures
        r@ == resolved(root@, p@),
        path_is_absolute(p@) ==> r@ == p@,
        !path_is_absolute(p@) ==> r@ == joined_path(root@, p@),
{
    if host::path_absolute(p) {
        p.to_owned()
    } else {
        host::path_join(root, p)
    }
}

/// The descriptor file of the machine whose directory is `root`.
pub fn conf_path(root: &str) -> (r: String)
    ensures
        r@ == descriptor_path(root@),
        r@ == joined_path(root@, "vm.json"@),
{
    host::path_join(root, "vm.json")
}

/// The directory of the machine `name` for given answers to the questions of
/// the home directory and of whether the directory is there.
pub fn locate_vm_dir(name: &str, home: Option<String>, present: bool) -> (r: Result<
    String,
    QvmError,
>)
    ensures
        text_result(r) == vm_dir_outcome(name@, option_text(home), present),
{
    match home {
        None => Err(QvmError::Environment),
        Some(h) => {
            if present {
                Ok(vm_root_in(h.as_str(), name))
            } else {
                Err(QvmError::NotFound { name: name.to_owned(), root: storage_root_in(h.as_str()) })
            }
        },
    }
}

/// The directory of the machine `name`, if it is there. The home directory
/// is asked of the host, then whether the path of the machine leads to a
/// directory: anything else there, a plain file too, is no machine. The
/// result is what `vm_dir_outcome` gives for the two answers.
pub fn find_vm_dir(name: &str) -> (r: Result<String, QvmError>)
    ensures
        exists|home: Option<Seq<char>>, present: bool|
            text_result(r) == vm_dir_outcome(name@, home, present),
{
    let home = host::home_dir();
    let present = match &home {
        Some(h) => {
            let dir = vm_root_in(h.as_str(), name);
            host::path_is_dir(dir.as_str())
        },
        None => false,
    };
    locate_vm_dir(name, home, present)
}

} // verus!
