//! The immutable input of one judgment: executable, redirection paths,
//! argument and environment vectors, syscall policy and resource limits.
//!
//! Arguments and environment entries are byte strings without interior
//! null bytes, so that the unverified shell can turn each of them into a
//! C string without a further check. The argument vector always carries
//! the executable path at position zero, whether or not the caller put it
//! there.

use vstd::prelude::*;
use vstd::string::StrSliceExecFns;
use vstd::string::StringSliceAdditionalSpecFns;
use crate::compare::bytes_equal;
use crate::models::ResourceLimit;
use crate::seccomp::ScmpPolicy;

verus! {

/// Whether a byte string holds a null byte, which a C string cannot.
pub open spec fn has_nul(s: Seq<u8>) -> bool {
    exists|i: int| 0 <= i < s.len() && s[i] == 0
}

/// Whether every entry of a sequence of byte strings is free of null
/// bytes.
pub open spec fn all_nul_free(xs: Seq<Seq<u8>>) -> bool {
    forall|i: int| 0 <= i < xs.len() ==> !has_nul(#[trigger] xs[i])
}

/// The argument vector handed to `execve`: the caller's arguments, with
/// the executable path put in front unless it already stands at position
/// zero.
pub open spec fn spec_argv(exe: Seq<u8>, args: Seq<Seq<u8>>) -> Seq<Seq<u8>> {
    if args.len() > 0 && args[0] == exe {
        args
    } else {
        seq![exe] + args
    }
}

/// The argument vector always starts with the executable path, whether or
/// not the caller placed it at position zero.
pub proof fn lemma_argv_first_element(exe: Seq<u8>, args: Seq<Seq<u8>>)
    ensures
        spec_argv(exe, args).len() > 0,
        spec_argv(exe, args)[0] == exe,
{
}

/// A request is well formed when its argument vector starts with the
/// executable path and no argument or environment entry holds a null
/// byte.
pub open spec fn spec_wf(s: &JudgeSpec) -> bool {
    &&& !has_nul(s.exe_path@)
    &&& all_nul_free(s.args.deep_view())
    &&& all_nul_free(s.envs.deep_view())
    &&& s.args@.len() > 0
    &&& s.args.deep_view()[0] == s.exe_path@
}

/// The immutable input of one judgment.
#[derive(Debug)]
pub struct JudgeSpec {
    /// Path of the executable file, as the bytes of a C string.
    pub exe_path: Vec<u8>,
    /// Path of the file to read standard input from, if any.
    pub input_path: Option<String>,
    /// Path of the expected-answer file, if any.
    pub answer_path: Option<String>,
    /// Path of the file to write standard output to, if any.
    pub output_path: Option<String>,
    /// Path of the file to write standard error to, if any.
    pub error_path: Option<String>,
    /// Arguments to pass to the program, e.g. `["/usr/bin/echo", "hello"]`.
    pub args: Vec<Vec<u8>>,
    /// Environment entries for the program, e.g. `["PATH=/usr/bin"]`.
    pub envs: Vec<Vec<u8>>,
    /// The seccomp rule set to apply.
    pub scmp_policy: ScmpPolicy,
    /// The resource limits to apply.
    pub resource_limit: ResourceLimit,
}

/// A string that was to become a C string held an interior null byte.
#[derive(Debug, Clone, Copy, PartialEq, Eq, Structural)]
pub struct NulByteError;

/// Whether a byte string holds a null byte.
fn contains_nul(b: &Vec<u8>) -> (r: bool)
    ensures
        r == has_nul(b@),
{
    let mut i: usize = 0;
    while i < b.len()
        invariant
            i <= b@.len(),
            forall|j: int| 0 <= j < i ==> b@[j] != 0,
        decreases b@.len() - i,
    {
        if b[i] == 0 {
            return true;
        }
        i = i + 1;
    }
    false
}

impl JudgeSpec {
    /// Build a request from borrowed strings, checking every string that
    /// becomes a C string for interior null bytes, and placing `exe_path`
    /// at position zero of the argument vector unless the caller already
    /// did.
    pub fn try_new(
        exe_path: &str,
        input_path: Option<&str>,
        answer_path: Option<&str>,
        output_path: Option<&str>,
        error_path: Option<&str>,
        args: Vec<&str>,
        envs: Vec<&str>,
        scmp_policy: ScmpPolicy,
        resource_limit: ResourceLimit,
    ) -> (r: Result<JudgeSpec, NulByteError>)
        ensures
            r is Err <==> {
                ||| has_nul(exe_path.spec_bytes())
                ||| exists|i: int|
                    0 <= i < args@.len() && has_nul(#[trigger] args@[i].spec_bytes())
                ||| exists|i: int|
                    0 <= i < envs@.len() && has_nul(#[trigger] envs@[i].spec_bytes())
            },
            r matches Ok(s) ==> {
                &&& s.exe_path@ == exe_path.spec_bytes()
                &&& s.args.deep_view() == spec_argv(
                    exe_path.spec_bytes(),
                    args@.map_values(|a: &str| a.spec_bytes()),
                )
                &&& s.envs.deep_view() == envs@.map_values(|e: &str| e.spec_bytes())
                &&& spec_wf(&s)
                &&& s.input_path.deep_view() == input_path.deep_view()
                &&& s.answer_path.deep_view() == answer_path.deep_view()
                &&& s.output_path.deep_view() == output_path.deep_view()
                &&& s.error_path.deep_view() == error_path.deep_view()
                &&& s.scmp_policy == scmp_policy
                &&& s.resource_limit == resource_limit
            },
    {
        let ghost arg_bytes = args@.map_values(|a: &str| a.spec_bytes());
        let ghost env_bytes = envs@.map_values(|e: &str| e.spec_bytes());
        let exe_bytes = exe_path.as_bytes_vec();
        if contains_nul(&exe_bytes) {
            return Err(NulByteError);
        }
        let is_exe_missing = match args.first() {
            Some(first) => !bytes_equal(first.as_bytes(), exe_path.as_bytes()),
            None => true,
        };
        let mut args_out: Vec<Vec<u8>> = Vec::new();
        if is_exe_missing {
            args_out.push(exe_path.as_bytes_vec());
        }
        let ghost lead: int = if is_exe_missing { 1int } else { 0int };
        let mut i: usize = 0;
        while i < args.len()
            invariant
                i <= args@.len(),
                lead == if is_exe_missing { 1int } else { 0int },
                args_out.deep_view().len() == lead + i,
                is_exe_missing ==> args_out.deep_view()[0] == exe_path.spec_bytes(),
                !has_nul(exe_path.spec_bytes()),
                arg_bytes == args@.map_values(|a: &str| a.spec_bytes()),
                forall|j: int|
                    0 <= j < i ==> args_out.deep_view()[lead + j] == arg_bytes[j],
                forall|j: int| 0 <= j < i ==> !has_nul(#[trigger] arg_bytes[j]),
            decreases args@.len() - i,
        {
            let a = args[i].as_bytes_vec();
            if contains_nul(&a) {
                proof {
                    assert(arg_bytes[i as int] == args@[i as int].spec_bytes());
                }
                return Err(NulByteError);
            }
            args_out.push(a);
            i = i + 1;
        }
        let mut envs_out: Vec<Vec<u8>> = Vec::new();
        let mut k: usize = 0;
        while k < envs.len()
            invariant
                k <= envs@.len(),
                envs_out.deep_view().len() == k,
                env_bytes == envs@.map_values(|e: &str| e.spec_bytes()),
                forall|j: int| 0 <= j < k ==> envs_out.deep_view()[j] == env_bytes[j],
                forall|j: int| 0 <= j < k ==> !has_nul(#[trigger] env_bytes[j]),
            decreases envs@.len() - k,
        {
            let e = envs[k].as_bytes_vec();
            if contains_nul(&e) {
                proof {
                    assert(env_bytes[k as int] == envs@[k as int].spec_bytes());
                }
                return Err(NulByteError);
            }
            envs_out.push(e);
            k = k + 1;
        }
        proof {
            assert(forall|j: int|
                0 <= j < args@.len() ==> #[trigger] args@[j].spec_bytes() == arg_bytes[j]);
            assert(forall|j: int|
                0 <= j < envs@.len() ==> #[trigger] envs@[j].spec_bytes() == env_bytes[j]);
            assert(envs_out.deep_view() =~~= env_bytes);
            if is_exe_missing {
                assert(args_out.deep_view() =~~= seq![exe_path.spec_bytes()] + arg_bytes);
                assert(!(arg_bytes.len() > 0 && arg_bytes[0] == exe_path.spec_bytes()));
            } else {
                assert(args_out.deep_view() =~~= arg_bytes);
                assert(arg_bytes.len() > 0 && arg_bytes[0] == exe_path.spec_bytes());
            }
        }
        let s = JudgeSpec {
            exe_path: exe_bytes,
            input_path: match input_path {
                Some(p) => Some(p.to_owned()),
                None => None,
            },
            answer_path: match answer_path {
                Some(p) => Some(p.to_owned()),
                None => None,
            },
            output_path: match output_path {
                Some(p) => Some(p.to_owned()),
                None => None,
            },
            error_path: match error_path {
                Some(p) => Some(p.to_owned()),
                None => None,
            },
            args: args_out,
            envs: envs_out,
            scmp_policy,
            resource_limit,
        };
        Ok(s)
    }

    /// Build a request from byte strings that are already known to be
    /// free of interior null bytes (they came out of C strings), placing
    /// `exe_path` at position zero of the argument vector unless the
    /// caller already did.
    pub fn from_c_spec(
        exe_path: Vec<u8>,
        input_path: Option<String>,
        answer_path: Option<String>,
        output_path: Option<String>,
        error_path: Option<String>,
        args: Vec<Vec<u8>>,
        envs: Vec<Vec<u8>>,
        scmp_policy: ScmpPolicy,
        resource_limit: ResourceLimit,
    ) -> (s: JudgeSpec)
        requires
            !has_nul(exe_path@),
            all_nul_free(args.deep_view()),
            all_nul_free(envs.deep_view()),
        ensures
            s.exe_path@ == exe_path@,
            s.args.deep_view() == spec_argv(exe_path@, args.deep_view()),
            s.envs.deep_view() == envs.deep_view(),
            spec_wf(&s),
            s.input_path == input_path,
            s.answer_path == answer_path,
            s.output_path == output_path,
            s.error_path == error_path,
            s.scmp_policy == scmp_policy,
            s.resource_limit == resource_limit,
    {
        let ghost orig_args = args.deep_view();
        let is_exe_missing = match args.first() {
            Some(first) => !bytes_equal(first.as_slice(), exe_path.as_slice()),
            None => true,
        };
        proof {
            if args@.len() > 0 {
                assert(orig_args[0] =~= args@[0]@);
            }
            assert(is_exe_missing == !(orig_args.len() > 0 && orig_args[0] == exe_path@));
        }
        let mut full_args: Vec<Vec<u8>> = args;
        if is_exe_missing {
            full_args.insert(0, clone_bytes(&exe_path));
            proof {
                assert(full_args.deep_view() =~~= seq![exe_path@] + orig_args);
            }
        }
        JudgeSpec {
            exe_path,
            input_path,
            answer_path,
            output_path,
            error_path,
            args: full_args,
            envs,
            scmp_policy,
            resource_limit,
        }
    }
}

/// A copy of a byte string.
fn clone_bytes(b: &Vec<u8>) -> (r: Vec<u8>)
    ensures
        r@ == b@,
{
    let mut r: Vec<u8> = Vec::new();
    let mut i: usize = 0;
    while i < b.len()
        invariant
            i <= b@.len(),
            r@ =~= b@.subrange(0, i as int),
        decreases b@.len() - i,
    {
        r.push(b[i]);
        i = i + 1;
    }
    proof {
        assert(r@ =~= b@);
    }
    r
}

} // verus!
