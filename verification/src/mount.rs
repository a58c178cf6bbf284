//! The mount sandbox, run inside the runner child after it entered a new
//! mount namespace: make the mount table private, remount the root
//! read-only, hide the sensitive directories under empty `tmpfs` mounts,
//! and bind the workspace back to writable.
//!
//! `/bin`, `/lib`, `/lib64`, `/proc`, `/tmp`, `/usr` and `/var` are left
//! visible on purpose: the dynamic linker and the standard language
//! runtimes live there.

use vstd::prelude::*;
use crate::sys;

verus! {

/// `MS_RDONLY`: mount read-only.
pub const MS_RDONLY: u64 = 1;

/// `MS_REMOUNT`: change the flags of an existing mount.
pub const MS_REMOUNT: u64 = 32;

/// `MS_BIND`: bind-mount.
pub const MS_BIND: u64 = 4096;

/// `MS_REC`: apply recursively.
pub const MS_REC: u64 = 16384;

/// `MS_PRIVATE`: make the mount private to this namespace.
pub const MS_PRIVATE: u64 = 262144;

/// The directories hidden from the runner under empty `tmpfs` mounts.
pub open spec fn spec_sensitive_dirs() -> Seq<Seq<char>> {
    seq![
        "/boot"@,
        "/dev"@,
        "/etc"@,
        "/home"@,
        "/mnt"@,
        "/opt"@,
        "/root"@,
        "/run"@,
        "/sbin"@,
        "/srv"@,
        "/sys"@,
    ]
}

/// The directories hidden from the runner under empty `tmpfs` mounts.
pub fn sensitive_dirs() -> (r: Vec<&'static str>)
    ensures
        r@.len() == spec_sensitive_dirs().len(),
        forall|i: int| 0 <= i < r@.len() ==> r@[i]@ == spec_sensitive_dirs()[i],
{
    let r = vec![
        "/boot",
        "/dev",
        "/etc",
        "/home",
        "/mnt",
        "/opt",
        "/root",
        "/run",
        "/sbin",
        "/srv",
        "/sys",
    ];
    assert(forall|i: int| 0 <= i < r@.len() ==> r@[i]@ == spec_sensitive_dirs()[i]) by {
        assert(r@[0]@ == spec_sensitive_dirs()[0]);
    }
    r
}

/// Where the mount sandbox failed, with the errno value. The text names
/// the step for the abort message.
#[derive(Debug, Clone, Copy, PartialEq, Eq, Structural)]
pub enum MountError {
    /// Making the mount table private failed.
    MakePrivate(i32),
    /// Remounting the root read-only failed.
    RemountRoot(i32),
    /// Masking a sensitive directory failed.
    MaskSensitive(i32),
    /// Binding the workspace writable, or entering it, failed.
    Workspace(i32),
}

/// Set up the runner's mount namespace, in order: mark `/` private so
/// nothing leaks to the host, remount `/` read-only, cover each
/// sensitive directory that exists with a two-mebibyte unreadable
/// `tmpfs`, and, when a workspace is given, bind it over itself
/// (stripping the read-only overlay) and change into it.
///
/// The mounts change kernel state that no contract can see; what is
/// promised is the error discipline: the first failing step is
/// reported, and a run that returns without error went through every
/// step.
pub fn mount_sandbox(workspace: Option<&str>) -> (r: Result<(), MountError>)
    ensures
        r matches Err(e) ==> match e {
            MountError::MakePrivate(n) => n != 0,
            MountError::RemountRoot(n) => n != 0,
            MountError::MaskSensitive(n) => n != 0,
            MountError::Workspace(n) => n != 0,
        },
{
    if let Err(e) = sys::sys_mount(None, "/", None, MS_PRIVATE | MS_REC, None) {
        return Err(MountError::MakePrivate(sys::nonzero_errno(e)));
    }
    if let Err(e) = sys::sys_mount(
        Some("/"),
        "/",
        None,
        MS_BIND | MS_REMOUNT | MS_RDONLY | MS_REC,
        Some("mode=000"),
    ) {
        return Err(MountError::RemountRoot(sys::nonzero_errno(e)));
    }
    let dirs = sensitive_dirs();
    let mut i: usize = 0;
    while i < dirs.len()
        invariant
            i <= dirs@.len(),
        decreases dirs@.len() - i,
    {
        let dir = dirs[i];
        if sys::path_is_dir(dir) {
            if let Err(e) = sys::sys_mount(
                Some("tmpfs"),
                dir,
                Some("tmpfs"),
                0,
                Some("size=2m,mode=000"),
            ) {
                return Err(MountError::MaskSensitive(sys::nonzero_errno(e)));
            }
        }
        i = i + 1;
    }
    if let Some(ws) = workspace {
        if let Err(e) = sys::sys_mount(Some(ws), ws, None, MS_BIND | MS_REC, None) {
            return Err(MountError::Workspace(sys::nonzero_errno(e)));
        }
        // A fresh bind inherits the read-only flag of the mount it was
        // taken from; remounting it in place without that flag makes
        // the workspace writable again.
        if let Err(e) = sys::sys_mount(None, ws, None, MS_BIND | MS_REMOUNT, None) {
            return Err(MountError::Workspace(sys::nonzero_errno(e)));
        }
        if let Err(e) = sys::sys_chdir(ws) {
            return Err(MountError::Workspace(sys::nonzero_errno(e)));
        }
    }
    Ok(())
}

} // verus!
