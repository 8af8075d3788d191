//! Process-confinement initializer for an embedded interpreter.
//!
//! The library holds the verified core of a one-shot sandbox gate: the static
//! syscall policy tables, the resolver that turns an optional environment
//! override and a network flag into the final allow- and error-lists, and the
//! step machine that sequences the irreversible OS transitions (filesystem
//! root restriction, privilege-escalation block, identity drop, filter
//! installation) in their security-critical order.
//!
//! The OS calls themselves (chroot, prctl, setgid/setuid, and the seccomp
//! filter syscalls) are performed by a thin unverified driver outside this
//! library; the library decides which call comes next, with which arguments,
//! and what the outcome of each call means for the remaining sequence.
//!
//! This build carries the python3 interpreter profile's policy tables.

use vstd::prelude::*;

pub mod machine;
pub mod parse;
pub mod policy;
pub mod tables;

verus! {

/// Static build version of the library.
pub fn get_lib_version_static() -> (s: String)
    ensures
        s@ == "0.1.0"@,
{
    "0.1.0".to_owned()
}

/// The interpreter profile this build carries the policy tables for.
pub fn get_lib_feature_static() -> (s: String)
    ensures
        s@ == "python3"@,
{
    "python3".to_owned()
}

} // verus!
