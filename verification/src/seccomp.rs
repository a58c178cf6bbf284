//! The syscall policy layer: compiles a policy name into an ordered list
//! of seccomp allow-rules. The unverified shell hands the list to the
//! seccomp library and installs it as a filter whose default action kills
//! the process.

use vstd::prelude::*;
use vstd::string::StringSliceAdditionalSpecFns;

verus! {

/// The seccomp rule set applied to the runner.
#[derive(Debug, Clone, Copy, PartialEq, Eq, Structural)]
pub enum ScmpPolicy {
    /// No filter at all: every syscall is permitted. Only for debugging or
    /// trusted code.
    Unsafe,
    /// The common whitelist only.
    Strict,
    /// The common whitelist plus the syscalls the Python runtime needs.
    Python,
}

/// A byte with any ASCII lower-case letter raised to upper case.
pub open spec fn ascii_upper(b: u8) -> u8 {
    if 97 <= b <= 122 {
        (b - 32) as u8
    } else {
        b
    }
}

/// Whether two byte strings are equal up to ASCII case.
pub open spec fn eq_ignore_ascii_case(a: Seq<u8>, b: Seq<u8>) -> bool {
    a.map_values(|x: u8| ascii_upper(x)) == b.map_values(|x: u8| ascii_upper(x))
}

/// Whether two byte slices are equal up to ASCII case.
fn eq_ignore_case_exec(a: &[u8], b: &[u8]) -> (r: bool)
    ensures
        r == eq_ignore_ascii_case(a@, b@),
{
    let ghost ua = a@.map_values(|x: u8| ascii_upper(x));
    let ghost ub = b@.map_values(|x: u8| ascii_upper(x));
    if a.len() != b.len() {
        assert(ua.len() != ub.len());
        return false;
    }
    let mut i: usize = 0;
    while i < a.len()
        invariant
            a@.len() == b@.len(),
            i <= a@.len(),
            ua == a@.map_values(|x: u8| ascii_upper(x)),
            ub == b@.map_values(|x: u8| ascii_upper(x)),
            forall|j: int| 0 <= j < i ==> ua[j] == ub[j],
        decreases a@.len() - i,
    {
        let ca = a[i];
        let cb = b[i];
        let fa = if 97 <= ca && ca <= 122 {
            ca - 32
        } else {
            ca
        };
        let fb = if 97 <= cb && cb <= 122 {
            cb - 32
        } else {
            cb
        };
        if fa != fb {
            assert(ua[i as int] != ub[i as int]);
            return false;
        }
        i = i + 1;
    }
    proof {
        assert(ua =~= ub);
    }
    true
}

impl ScmpPolicy {
    /// The policy a name picks, compared without regard to ASCII case,
    /// as a command line or a C caller writes it.
    pub fn from_name(s: &str) -> (r: Option<ScmpPolicy>)
        ensures
            r == if eq_ignore_ascii_case(s.spec_bytes(), "Unsafe".spec_bytes()) {
                Some(ScmpPolicy::Unsafe)
            } else if eq_ignore_ascii_case(s.spec_bytes(), "Strict".spec_bytes()) {
                Some(ScmpPolicy::Strict)
            } else if eq_ignore_ascii_case(s.spec_bytes(), "Python".spec_bytes()) {
                Some(ScmpPolicy::Python)
            } else {
                None::<ScmpPolicy>
            },
    {
        let sb = s.as_bytes();
        if eq_ignore_case_exec(sb, "Unsafe".as_bytes()) {
            Some(ScmpPolicy::Unsafe)
        } else if eq_ignore_case_exec(sb, "Strict".as_bytes()) {
            Some(ScmpPolicy::Strict)
        } else if eq_ignore_case_exec(sb, "Python".as_bytes()) {
            Some(ScmpPolicy::Python)
        } else {
            None
        }
    }

    /// The canonical name of the policy.
    pub fn name(&self) -> (r: &'static str)
        ensures
            *self == ScmpPolicy::Unsafe ==> r@ == "Unsafe"@,
            *self == ScmpPolicy::Strict ==> r@ == "Strict"@,
            *self == ScmpPolicy::Python ==> r@ == "Python"@,
    {
        match self {
            ScmpPolicy::Unsafe => "Unsafe",
            ScmpPolicy::Strict => "Strict",
            ScmpPolicy::Python => "Python",
        }
    }
}

/// The condition under which a whitelisted syscall is allowed.
#[derive(Debug, Clone, Copy, PartialEq, Eq, Structural)]
pub enum RuleCond {
    /// Allowed unconditionally.
    Always,
    /// Allowed only when the numbered argument equals the datum.
    ArgEquals(u32, u64),
    /// Allowed only when the numbered argument has no bit of the mask set.
    ArgMaskedZero(u32, u64),
}

/// One seccomp allow-rule: a syscall name and the condition on its
/// arguments.
#[derive(Debug, Clone, Copy)]
pub struct SyscallRule {
    pub name: &'static str,
    pub cond: RuleCond,
}

/// `O_WRONLY | O_RDWR` on Linux: the access-mode bits that make an `open`
/// request writable.
pub const WRITE_FLAGS: u64 = 3;

/// The syscalls every filtered policy allows unconditionally.
pub open spec fn spec_common_names() -> Seq<Seq<char>> {
    seq![
        "brk"@,
        "close"@,
        "exit"@,
        "exit_group"@,
        "faccessat"@,
        "fstat"@,
        "futex"@,
        "getrandom"@,
        "lseek"@,
        "mmap"@,
        "mprotect"@,
        "munmap"@,
        "newfstatat"@,
        "pread64"@,
        "read"@,
        "readlink"@,
        "readlinkat"@,
        "readv"@,
        "rseq"@,
        "set_robust_list"@,
        "set_tid_address"@,
        "write"@,
        "writev"@,
    ]
}

/// The extra syscalls the Python policy allows unconditionally.
pub open spec fn spec_python_names() -> Seq<Seq<char>> {
    seq![
        "fcntl"@,
        "getdents64"@,
        "getegid"@,
        "geteuid"@,
        "getgid"@,
        "gettid"@,
        "getuid"@,
        "ioctl"@,
        "mremap"@,
        "rt_sigaction"@,
        "socket"@,
        "connect"@,
    ]
}

/// The conditional rules every filtered policy carries, in order:
/// `execve` only of the executable the runner itself passes (compared by
/// the address of its path), `open`/`openat` only read-only, and
/// `prlimit64` only as a query.
pub open spec fn spec_cond_rules(exe_path_addr: u64) -> Seq<(Seq<char>, RuleCond)> {
    seq![
        ("execve"@, RuleCond::ArgEquals(0, exe_path_addr)),
        ("open"@, RuleCond::ArgMaskedZero(1, WRITE_FLAGS as u64)),
        ("openat"@, RuleCond::ArgMaskedZero(1, WRITE_FLAGS as u64)),
        ("prlimit64"@, RuleCond::ArgEquals(2, 0)),
    ]
}

/// The whole whitelist of a policy: empty for `Unsafe`; the common names,
/// then the conditional rules, for `Strict`; the same plus the Python
/// names for `Python`.
pub open spec fn spec_whitelist(policy: ScmpPolicy, exe_path_addr: u64) -> Seq<
    (Seq<char>, RuleCond),
> {
    match policy {
        ScmpPolicy::Unsafe => Seq::empty(),
        ScmpPolicy::Strict => spec_common_names().map_values(
            |n: Seq<char>| (n, RuleCond::Always),
        ) + spec_cond_rules(exe_path_addr),
        ScmpPolicy::Python => spec_common_names().map_values(
            |n: Seq<char>| (n, RuleCond::Always),
        ) + spec_cond_rules(exe_path_addr) + spec_python_names().map_values(
            |n: Seq<char>| (n, RuleCond::Always),
        ),
    }
}

/// The syscalls every filtered policy allows unconditionally.
pub fn common_syscall_names() -> (r: Vec<&'static str>)
    ensures
        r@.len() == spec_common_names().len(),
        forall|i: int| 0 <= i < r@.len() ==> r@[i]@ == spec_common_names()[i],
{
    let r = vec![
        "brk",
        "close",
        "exit",
        "exit_group",
        "faccessat",
        "fstat",
        "futex",
        "getrandom",
        "lseek",
        "mmap",
        "mprotect",
        "munmap",
        "newfstatat",
        "pread64",
        "read",
        "readlink",
        "readlinkat",
        "readv",
        "rseq",
        "set_robust_list",
        "set_tid_address",
        "write",
        "writev",
    ];
    assert(forall|i: int| 0 <= i < r@.len() ==> r@[i]@ == spec_common_names()[i]) by {
        assert(r@[0]@ == spec_common_names()[0]);
    }
    r
}

/// The extra syscalls the Python policy allows unconditionally.
pub fn python_syscall_names() -> (r: Vec<&'static str>)
    ensures
        r@.len() == spec_python_names().len(),
        forall|i: int| 0 <= i < r@.len() ==> r@[i]@ == spec_python_names()[i],
{
    let r = vec![
        "fcntl",
        "getdents64",
        "getegid",
        "geteuid",
        "getgid",
        "gettid",
        "getuid",
        "ioctl",
        "mremap",
        "rt_sigaction",
        "socket",
        "connect",
    ];
    assert(forall|i: int| 0 <= i < r@.len() ==> r@[i]@ == spec_python_names()[i]) by {
        assert(r@[0]@ == spec_python_names()[0]);
    }
    r
}

/// Compile a policy into its ordered whitelist. `exe_path_addr` is the
/// address of the executable-path string the runner will hand to `execve`;
/// the `execve` rule pins its first argument to exactly that address.
pub fn get_whitelist(policy: &ScmpPolicy, exe_path_addr: u64) -> (r: Vec<SyscallRule>)
    ensures
        r@.len() == spec_whitelist(*policy, exe_path_addr).len(),
        forall|i: int|
            0 <= i < r@.len() ==> (r@[i].name@, r@[i].cond) == spec_whitelist(
                *policy,
                exe_path_addr,
            )[i],
{
    let mut r: Vec<SyscallRule> = Vec::new();
    if let ScmpPolicy::Unsafe = policy {
        return r;
    }
    let common = common_syscall_names();
    let mut i: usize = 0;
    while i < common.len()
        invariant
            i <= common.len(),
            common@.len() == spec_common_names().len(),
            forall|j: int| 0 <= j < common@.len() ==> common@[j]@ == spec_common_names()[j],
            r@.len() == i,
            forall|j: int|
                0 <= j < i ==> (r@[j].name@, r@[j].cond) == (
                    spec_common_names()[j],
                    RuleCond::Always,
                ),
        decreases common.len() - i,
    {
        r.push(SyscallRule { name: common[i], cond: RuleCond::Always });
        i = i + 1;
    }
    r.push(SyscallRule { name: "execve", cond: RuleCond::ArgEquals(0, exe_path_addr) });
    r.push(SyscallRule { name: "open", cond: RuleCond::ArgMaskedZero(1, WRITE_FLAGS) });
    r.push(SyscallRule { name: "openat", cond: RuleCond::ArgMaskedZero(1, WRITE_FLAGS) });
    r.push(SyscallRule { name: "prlimit64", cond: RuleCond::ArgEquals(2, 0) });
    match policy {
        ScmpPolicy::Python => {
            let python = python_syscall_names();
            let base = r.len();
            let mut k: usize = 0;
            while k < python.len()
                invariant
                    k <= python.len(),
                    python@.len() == spec_python_names().len(),
                    forall|j: int| 0 <= j < python@.len() ==> python@[j]@ == spec_python_names()[j],
                    base == spec_common_names().len() + 4,
                    r@.len() == base + k,
                    forall|j: int|
                        0 <= j < base ==> (r@[j].name@, r@[j].cond) == spec_whitelist(
                            ScmpPolicy::Python,
                            exe_path_addr,
                        )[j],
                    forall|j: int|
                        base <= j < r@.len() ==> (r@[j].name@, r@[j].cond) == (
                            spec_python_names()[j - base],
                            RuleCond::Always,
                        ),
                decreases python.len() - k,
            {
                r.push(SyscallRule { name: python[k], cond: RuleCond::Always });
                k = k + 1;
            }
            r
        },
        _ => r,
    }
}

} // verus!
