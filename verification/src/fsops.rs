//! Trusted access to the filesystem collaborators: copying, moving,
//! deleting and trashing files, and making sure the destination folder
//! exists. Whether each call succeeds depends on the filesystem, so nothing
//! is assumed of the outcomes; the batch operations are verified for every
//! outcome sequence.

use crate::pathstr::spec_path_final_component;
use vstd::prelude::*;

verus! {

/// Relies on fs_extra::file::copy: copies the file at `src` to `dst`,
/// failing when the source is missing or not a file or the target exists.
#[verifier::external_body]
pub(crate) fn copy_file(src: &str, dst: &str) -> (r: Result<(), String>) {
    let options = fs_extra::file::CopyOptions::new();
    match fs_extra::file::copy(src, dst, &options) {
        Ok(_) => Ok(()),
        Err(e) => Err(e.to_string()),
    }
}

/// Relies on fs_extra::file::move_file: copies the file at `src` to `dst`
/// and removes the source on success.
#[verifier::external_body]
pub(crate) fn move_file(src: &str, dst: &str) -> (r: Result<(), String>) {
    let options = fs_extra::file::CopyOptions::new();
    match fs_extra::file::move_file(src, dst, &options) {
        Ok(_) => Ok(()),
        Err(e) => Err(e.to_string()),
    }
}

/// Relies on fs_extra::file::remove: removes the file at the path; a
/// missing file counts as removed.
#[verifier::external_body]
pub(crate) fn remove_file(src: &str) -> (r: Result<(), String>) {
    match fs_extra::file::remove(src) {
        Ok(()) => Ok(()),
        Err(e) => Err(e.to_string()),
    }
}

/// Relies on trash::delete: moves the file at the path to the platform
/// trash. A path whose final component, ignoring trailing separators and
/// trailing `.` components, is `..` is excluded: the crate resolves such a
/// path to its canonical parent, which can be the filesystem root, and then
/// unwraps that root's missing file name.
#[verifier::external_body]
pub(crate) fn trash_file(src: &str) -> (r: Result<(), String>)
    requires
        spec_path_final_component(src@) != seq!['.', '.'],
{
    match trash::delete(src) {
        Ok(()) => Ok(()),
        Err(e) => Err(e.to_string()),
    }
}

/// Relies on fs_extra::dir::create_all: creates the directory and its
/// missing parents; a directory that already exists is left as it is.
#[verifier::external_body]
pub(crate) fn ensure_dir(path: &str) -> (r: Result<(), String>) {
    match fs_extra::dir::create_all(path, false) {
        Ok(()) => Ok(()),
        Err(e) => Err(e.to_string()),
    }
}

/// Relies on Path::is_dir of std: whether the path names a directory on
/// disk at the moment of the call.
#[verifier::external_body]
pub(crate) fn is_directory(path: &str) -> (r: bool) {
    std::path::Path::new(path).is_dir()
}

/// Relies on shellexpand::full: `~` and environment variables expanded from
/// the process environment, so the outcome depends on that environment. On
/// failure the message carries the variable name and the cause, the way the
/// command interpreter reports it. Text that holds no `$` and does not
/// start with `~` passes through unchanged: both expansion passes return
/// their input as it is then.
#[verifier::external_body]
pub(crate) fn expand_full(s: &str) -> (r: Result<String, String>)
    ensures
        match r {
            Ok(p) => s@.contains('$') || (s@.len() > 0 && s@[0] == '~') || p@ == s@,
            Err(_) => s@.contains('$') || (s@.len() > 0 && s@[0] == '~'),
        },
{
    match shellexpand::full(s) {
        Ok(expanded) => Ok(expanded.to_string()),
        Err(e) => Err(format!("\"{}\": {}", e.var_name, e.cause)),
    }
}

} // verus!
