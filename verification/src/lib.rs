//! Core of a Linux judging sandbox: runs an untrusted native program under
//! cgroup, mount-namespace, rlimit and seccomp isolation, measures its
//! resource usage, compares its output to an expected answer, and returns a
//! verdict classifying the run.
//!
//! This crate holds the verified core: limit arithmetic, request building,
//! the syscall policy tables, the sandbox setup sequences, output comparison
//! and the verdict resolver. Process cloning, threads and the C interface
//! live outside the library, in a thin unverified shell that drives it.

pub mod cgroup;
pub mod compare;
pub mod models;
pub mod mount;
pub mod redirect;
pub mod request;
pub mod rlimit;
pub mod runner;
pub mod seccomp;
pub mod sys;
pub mod text;
pub mod verdict;
