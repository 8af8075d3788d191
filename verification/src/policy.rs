//! Policy resolution and the filter plan.
//!
//! The resolver decides, once per initialization, the final allow-list and
//! error-list. The error-list is always exactly the allow-with-error table.
//! The allow-list comes either entirely from the override source (a
//! comma-separated list of syscall numbers, present and non-empty) or
//! entirely from the profile's tables; the two sources are never merged, and
//! a present override makes the network flag irrelevant.

use vstd::prelude::*;

use crate::parse::{override_vals, parse_override};
use crate::tables::{
    allow_error_seq,
    allow_error_syscalls,
    baseline_allow_seq,
    baseline_allow_syscalls,
    network_allow_seq,
    network_allow_syscalls,
};

verus! {

/// The view of an optional override value.
pub open spec fn opt_bytes_view(ov: Option<Vec<u8>>) -> Option<Seq<u8>> {
    match ov {
        Some(v) => Some(v@),
        None => None,
    }
}

/// The default allow-list: the baseline table, extended by the network table
/// when networking is enabled.
pub open spec fn spec_default_allow(enable_network: bool) -> Seq<i32> {
    if enable_network {
        baseline_allow_seq() + network_allow_seq()
    } else {
        baseline_allow_seq()
    }
}

/// The resolved allow-list: the parsed override when one is present and
/// non-empty (even if no token of it parses), the defaults otherwise.
pub open spec fn spec_allow_list(enable_network: bool, ov: Option<Seq<u8>>) -> Seq<i32> {
    match ov {
        Some(s) => if s.len() > 0 {
            override_vals(s)
        } else {
            spec_default_allow(enable_network)
        },
        None => spec_default_allow(enable_network),
    }
}

/// Name of the environment variable that carries the override.
pub fn allowed_syscalls_env_name() -> (s: String)
    ensures
        s@ == "ALLOWED_SYSCALLS"@,
{
    "ALLOWED_SYSCALLS".to_owned()
}

/// The default allow-list as a vector.
pub fn default_allow_syscalls(enable_network: bool) -> (v: Vec<i32>)
    ensures
        v@ == spec_default_allow(enable_network),
{
    let mut v = baseline_allow_syscalls();
    if enable_network {
        let mut net = network_allow_syscalls();
        v.append(&mut net);
    }
    v
}

/// Resolve the allow-list and the error-list from the network flag and the
/// optional override value. The error-list is the allow-with-error table,
/// whatever the other inputs are.
pub fn get_allowed_syscalls(enable_network: bool, override_val: Option<Vec<u8>>) -> (r: (
    Vec<i32>,
    Vec<i32>,
))
    ensures
        r.0@ == spec_allow_list(enable_network, opt_bytes_view(override_val)),
        r.1@ == allow_error_seq(),
{
    let allow = match override_val {
        Some(v) => if v.len() > 0 {
            parse_override(&v)
        } else {
            default_allow_syscalls(enable_network)
        },
        None => default_allow_syscalls(enable_network),
    };
    let err = allow_error_syscalls();
    (allow, err)
}

/// The pair of lists the filter is built from.
pub struct ResolvedPolicy {
    pub allow_list: Vec<i32>,
    pub error_list: Vec<i32>,
}

/// Resolve the full policy.
pub fn resolve_policy(enable_network: bool, override_val: Option<Vec<u8>>) -> (p: ResolvedPolicy)
    ensures
        p.allow_list@ == spec_allow_list(enable_network, opt_bytes_view(override_val)),
        p.error_list@ == allow_error_seq(),
{
    let (allow_list, error_list) = get_allowed_syscalls(enable_network, override_val);
    ResolvedPolicy { allow_list, error_list }
}

/// How the filter treats a listed syscall: execute it normally, or let the
/// attempt fail with a fixed permission error instead of executing it.
#[derive(Clone, Copy, PartialEq, Eq, Structural, Debug)]
pub enum SyscallClass {
    Allow,
    AllowWithError,
}

/// One rule of the filter: a syscall and its class. Any syscall matched by
/// no rule falls to the filter's default action, which kills the process.
#[derive(Clone, Copy, PartialEq, Eq, Structural, Debug)]
pub struct FilterRule {
    pub class: SyscallClass,
    pub syscall: i32,
}

/// The rules of the filter, in installation order: every allow-list entry as
/// an allow rule, then every error-list entry as an allow-with-error rule.
pub open spec fn spec_filter_plan(allow: Seq<i32>, err: Seq<i32>) -> Seq<FilterRule> {
    allow.map_values(|sc: i32| FilterRule { class: SyscallClass::Allow, syscall: sc })
        + err.map_values(|sc: i32| FilterRule { class: SyscallClass::AllowWithError, syscall: sc })
}

/// Build the rule sequence for a resolved policy.
pub fn filter_plan(policy: &ResolvedPolicy) -> (plan: Vec<FilterRule>)
    ensures
        plan@ == spec_filter_plan(policy.allow_list@, policy.error_list@),
{
    let mut plan: Vec<FilterRule> = Vec::new();
    let n_allow = policy.allow_list.len();
    let mut i: usize = 0;
    while i < n_allow
        invariant
            i <= n_allow == policy.allow_list@.len(),
            plan@.len() == i,
            forall|j: int|
                0 <= j < i ==> plan@[j] == (FilterRule {
                    class: SyscallClass::Allow,
                    syscall: policy.allow_list@[j],
                }),
        decreases n_allow - i,
    {
        plan.push(FilterRule { class: SyscallClass::Allow, syscall: policy.allow_list[i] });
        i = i + 1;
    }
    let n_err = policy.error_list.len();
    let mut k: usize = 0;
    while k < n_err
        invariant
            k <= n_err == policy.error_list@.len(),
            plan@.len() == n_allow + k,
            n_allow == policy.allow_list@.len(),
            forall|j: int|
                0 <= j < n_allow ==> plan@[j] == (FilterRule {
                    class: SyscallClass::Allow,
                    syscall: policy.allow_list@[j],
                }),
            forall|j: int|
                0 <= j < k ==> plan@[n_allow + j] == (FilterRule {
                    class: SyscallClass::AllowWithError,
                    syscall: policy.error_list@[j],
                }),
        decreases n_err - k,
    {
        plan.push(FilterRule { class: SyscallClass::AllowWithError, syscall: policy.error_list[k] });
        k = k + 1;
    }
    proof {
        assert(plan@ =~= spec_filter_plan(policy.allow_list@, policy.error_list@));
    }
    plan
}

/// Every allow-list entry becomes exactly one allow rule and every error-list
/// entry exactly one allow-with-error rule, each at its list's position; the
/// plan holds no other rule, so every other syscall falls to the filter's
/// kill-process default.
pub proof fn lemma_plan_covers_exactly_the_lists(allow: Seq<i32>, err: Seq<i32>)
    ensures
        spec_filter_plan(allow, err).len() == allow.len() + err.len(),
        forall|j: int|
            0 <= j < allow.len() ==> spec_filter_plan(allow, err)[j] == (FilterRule {
                class: SyscallClass::Allow,
                syscall: allow[j],
            }),
        forall|j: int|
            0 <= j < err.len() ==> spec_filter_plan(allow, err)[allow.len() + j] == (FilterRule {
                class: SyscallClass::AllowWithError,
                syscall: err[j],
            }),
{
}

/// A present, non-empty override fixes the allow-list by itself: the network
/// flag has no effect on what is resolved.
pub proof fn lemma_override_ignores_network(net_a: bool, net_b: bool, ov: Seq<u8>)
    requires
        ov.len() > 0,
    ensures
        spec_allow_list(net_a, Some(ov)) == spec_allow_list(net_b, Some(ov)),
        spec_allow_list(net_a, Some(ov)) == override_vals(ov),
{
}

/// Without an override and with networking disabled, the allow-list is the
/// baseline table exactly, in its defined order.
pub proof fn lemma_defaults_without_network()
    ensures
        spec_allow_list(false, None) == baseline_allow_seq(),
{
}

/// Without an override and with networking enabled, the allow-list is the
/// baseline table followed by the network table.
pub proof fn lemma_defaults_with_network()
    ensures
        spec_allow_list(true, None) == baseline_allow_seq() + network_allow_seq(),
{
}

/// An override that is present but empty resolves like no override at all.
pub proof fn lemma_empty_override_is_unset(enable_network: bool)
    ensures
        spec_allow_list(enable_network, Some(Seq::<u8>::empty())) == spec_allow_list(
            enable_network,
            None,
        ),
{
}

} // verus!
