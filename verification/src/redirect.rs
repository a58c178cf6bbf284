//! Standard-stream redirection inside the runner child: the configured
//! input file replaces descriptor 0, the output and error files
//! (created or truncated) replace descriptors 1 and 2.

use vstd::prelude::*;
use vstd::string::StringExecFns;
use crate::request::JudgeSpec;
use crate::sys;

verus! {

/// `O_RDONLY`: open for reading.
pub const O_RDONLY: i32 = 0;

/// `O_WRONLY`: open for writing.
pub const O_WRONLY: i32 = 1;

/// `O_CREAT`: create the file if it does not exist.
pub const O_CREAT: i32 = 64;

/// `O_TRUNC`: truncate the file to length zero.
pub const O_TRUNC: i32 = 512;

/// Mode `rw-r--r--` for files the redirection creates.
pub const CREATE_MODE: u32 = 420;

/// A failed redirection step: the errno value and a line of context
/// for the abort message.
#[derive(Debug)]
pub struct RedirectError {
    pub errno: i32,
    pub context: String,
}

/// A context line of the form `"Failed to <action> file <path>: <errno
/// text>"`.
pub open spec fn spec_file_context(action: Seq<char>, path: Seq<char>, errno: int) -> Seq<char> {
    "Failed to "@ + action + " file "@ + path + ": "@ + sys::errno_text(errno)
}

/// Build the context line for a failed open or create.
fn file_context(action: &str, path: &str, errno: i32) -> (r: String)
    ensures
        r@ == spec_file_context(action@, path@, errno as int),
{
    String::from_str("Failed to ").concat(action).concat(" file ").concat(path).concat(
        ": ",
    ).concat(sys::errno_desc(errno))
}

/// Replace descriptor `target` with the newly opened `fd`, then close
/// `fd`. The context names the stream on failure.
fn replace_fd(fd: i32, target: i32, stream: &str) -> (r: Result<(), RedirectError>)
    ensures
        r matches Err(e) ==> e.errno != 0,
{
    let dup_result = sys::sys_dup2(fd, target);
    let _ = sys::sys_close(fd);
    match dup_result {
        Ok(()) => Ok(()),
        Err(errno) => Err(
            RedirectError {
                errno: sys::nonzero_errno(errno),
                context: String::from_str("Failed to redirect ").concat(stream),
            },
        ),
    }
}

/// Redirect the standard streams according to the request: the input
/// file, if named, becomes descriptor 0; the output and error files,
/// if named, are created (truncating what was there) and become
/// descriptors 1 and 2. The first failing step is reported with its
/// errno value and a context line.
pub fn redirect(spec: &JudgeSpec) -> (r: Result<(), RedirectError>)
    ensures
        r matches Err(e) ==> e.errno != 0,
{
    if let Some(path) = &spec.input_path {
        let fd = match sys::sys_open(path.as_str(), O_RDONLY, 0) {
            Ok(fd) => fd,
            Err(errno) => {
                return Err(
                    RedirectError {
                        errno: sys::nonzero_errno(errno),
                        context: file_context("open", path.as_str(), errno),
                    },
                );
            },
        };
        if let Err(e) = replace_fd(fd, 0, "stdin") {
            return Err(e);
        }
    }
    if let Some(path) = &spec.output_path {
        let fd = match sys::sys_open(path.as_str(), O_WRONLY | O_CREAT | O_TRUNC, CREATE_MODE) {
            Ok(fd) => fd,
            Err(errno) => {
                return Err(
                    RedirectError {
                        errno: sys::nonzero_errno(errno),
                        context: file_context("create", path.as_str(), errno),
                    },
                );
            },
        };
        if let Err(e) = replace_fd(fd, 1, "stdout") {
            return Err(e);
        }
    }
    if let Some(path) = &spec.error_path {
        let fd = match sys::sys_open(path.as_str(), O_WRONLY | O_CREAT | O_TRUNC, CREATE_MODE) {
            Ok(fd) => fd,
            Err(errno) => {
                return Err(
                    RedirectError {
                        errno: sys::nonzero_errno(errno),
                        context: file_context("create", path.as_str(), errno),
                    },
                );
            },
        };
        if let Err(e) = replace_fd(fd, 2, "stderr") {
            return Err(e);
        }
    }
    Ok(())
}

} // verus!
