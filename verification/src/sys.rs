//! Trusted wrappers around the system-call layer of the `nix` crate.
//!
//! Every function here is `external_body`: Verus believes its contract and
//! does not read its body. Each wrapper holds one outside call and the
//! conversion of its arguments and result, nothing more. The effects are on
//! kernel state, so the contracts speak only of the returned values.

use vstd::prelude::*;

verus! {

/// What `nix::errno::Errno::desc` returns for an errno value. The
/// description is a fixed table in the `nix` source, a function of the
/// errno value alone.
pub uninterp spec fn errno_text(e: int) -> Seq<char>;

/// Relies on `nix::errno::Errno::desc`: a short fixed description of an
/// errno value.
#[verifier::external_body]
pub fn errno_desc(errno: i32) -> (r: &'static str)
    ensures
        r@ == errno_text(errno as int),
{
    nix::errno::Errno::from_raw(errno).desc()
}

/// Relies on `nix::mount::mount`, a direct wrapper of the `mount(2)`
/// system call. `flags` is passed through as the raw `MS_*` flag word.
/// Returns the errno value on failure.
#[verifier::external_body]
pub fn sys_mount(
    source: Option<&str>,
    target: &str,
    fstype: Option<&str>,
    flags: u64,
    data: Option<&str>,
) -> (r: Result<(), i32>)
{
    nix::mount::mount(
        source,
        target,
        fstype,
        nix::mount::MsFlags::from_bits_truncate(flags),
        data,
    ).map_err(|e| e as i32)
}

/// Relies on `nix::unistd::chdir`. Returns the errno value on failure.
#[verifier::external_body]
pub fn sys_chdir(path: &str) -> (r: Result<(), i32>)
{
    nix::unistd::chdir(path).map_err(|e| e as i32)
}

/// Relies on `std::path::Path::is_dir`: whether the path names an existing
/// directory. The answer depends on the state of the file system, so
/// nothing is promised of it.
#[verifier::external_body]
pub fn path_is_dir(path: &str) -> bool {
    std::path::Path::new(path).is_dir()
}

/// Relies on `nix::sys::resource::setrlimit`, a direct wrapper of
/// `setrlimit(2)`. The resource is chosen by [`RlimitKind`]; both the soft
/// and the hard limit are set to the same value elsewhere, so the wrapper
/// takes them separately only to mirror the system call. Returns the errno
/// value on failure.
#[verifier::external_body]
pub fn sys_setrlimit(kind: &RlimitKind, soft: u64, hard: u64) -> (r: Result<(), i32>)
{
    let resource = match kind {
        RlimitKind::Cpu => nix::sys::resource::Resource::RLIMIT_CPU,
        RlimitKind::NProc => nix::sys::resource::Resource::RLIMIT_NPROC,
        RlimitKind::Stack => nix::sys::resource::Resource::RLIMIT_STACK,
        RlimitKind::Fsize => nix::sys::resource::Resource::RLIMIT_FSIZE,
    };
    nix::sys::resource::setrlimit(resource, soft, hard).map_err(|e| e as i32)
}

/// Relies on `nix::fcntl::open`, a direct wrapper of `open(2)`. On success
/// the result is a readable or writable file descriptor for `path`,
/// depending on `oflag`. Returns the errno value on failure.
#[verifier::external_body]
pub fn sys_open(path: &str, oflag: i32, mode: u32) -> (r: Result<i32, i32>)
    ensures
        r matches Ok(fd) ==> fd >= 0,
{
    nix::fcntl::open(
        path,
        nix::fcntl::OFlag::from_bits_truncate(oflag),
        nix::sys::stat::Mode::from_bits_truncate(mode),
    ).map_err(|e| e as i32)
}

/// Relies on `nix::unistd::read`, a direct wrapper of `read(2)`: on
/// success, the first `n` bytes of `buf` were filled from the descriptor,
/// and `n == 0` only at end of file (for a regular file or pipe). What was
/// read depends on outside state, so only the count is promised.
#[verifier::external_body]
pub fn sys_read(fd: i32, buf: &mut Vec<u8>) -> (r: Result<usize, i32>)
    ensures
        final(buf)@.len() == old(buf)@.len(),
        r matches Ok(n) ==> n <= final(buf)@.len(),
{
    nix::unistd::read(fd, buf.as_mut_slice()).map_err(|e| e as i32)
}

/// Relies on `nix::sys::stat::fstat`, a direct wrapper of `fstat(2)`: the
/// size in bytes of the open file. The answer depends on the state of the
/// file system, so nothing more is promised. Returns the errno value on
/// failure.
#[verifier::external_body]
pub fn sys_fstat_size(fd: i32) -> (r: Result<u64, i32>)
{
    nix::sys::stat::fstat(fd).map(|st| st.st_size as u64).map_err(|e| e as i32)
}

/// Relies on `nix::unistd::close`, a direct wrapper of `close(2)`.
#[verifier::external_body]
pub fn sys_close(fd: i32) -> (r: Result<(), i32>)
{
    nix::unistd::close(fd).map_err(|e| e as i32)
}

/// Relies on `nix::unistd::dup2`, a direct wrapper of `dup2(2)`: on
/// success, descriptor `newfd` refers to the same open file as `oldfd`.
/// Returns the errno value on failure.
#[verifier::external_body]
pub fn sys_dup2(oldfd: i32, newfd: i32) -> (r: Result<(), i32>)
{
    nix::unistd::dup2(oldfd, newfd).map(|_| ()).map_err(|e| e as i32)
}

/// An errno value made usable as a non-zero exit code: an errno the
/// system-call layer could not recognize is reported as 1.
pub fn nonzero_errno(e: i32) -> (r: i32)
    ensures
        r != 0,
        e != 0 ==> r == e,
{
    if e != 0 {
        e
    } else {
        1
    }
}

/// The POSIX resource limits the sandbox sets.
#[derive(Debug, Clone, Copy, PartialEq, Eq, Structural)]
pub enum RlimitKind {
    /// `RLIMIT_CPU`: CPU time, in seconds.
    Cpu,
    /// `RLIMIT_NPROC`: number of processes.
    NProc,
    /// `RLIMIT_STACK`: stack size, in bytes.
    Stack,
    /// `RLIMIT_FSIZE`: largest file that may be created, in bytes.
    Fsize,
}

} // verus!
