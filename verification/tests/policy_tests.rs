use seccomp_gate::parse::{parse_i32, parse_override};
use seccomp_gate::policy::{
    allowed_syscalls_env_name, default_allow_syscalls, filter_plan, get_allowed_syscalls,
    resolve_policy, FilterRule, SyscallClass,
};
use seccomp_gate::tables::{allow_error_syscalls, baseline_allow_syscalls, network_allow_syscalls};

const BASELINE: [i32; 39] = [
    0, 1, 257, 3, 262, 16, 8, 217, 202, 9, 12, 10, 11, 15, 25, 105, 106, 102, 39, 110, 186, 60,
    231, 234, 13, 24, 273, 274, 334, 228, 96, 35, 291, 233, 230, 270, 14, 131, 318,
];

const NETWORK: [i32; 21] = [
    41, 42, 49, 50, 43, 44, 45, 51, 47, 52, 54, 271, 63, 46, 307, 55, 5, 72, 138, 7, 281,
];

const ALLOW_ERROR: [i32; 3] = [56, 258, 83];

#[test]
fn parse_accepts_plain_decimals() {
    assert_eq!(parse_i32(&b"0".to_vec()), Some(0));
    assert_eq!(parse_i32(&b"123".to_vec()), Some(123));
    assert_eq!(parse_i32(&b"007".to_vec()), Some(7));
}

#[test]
fn parse_accepts_signs() {
    assert_eq!(parse_i32(&b"+7".to_vec()), Some(7));
    assert_eq!(parse_i32(&b"-5".to_vec()), Some(-5));
    assert_eq!(parse_i32(&b"-0".to_vec()), Some(0));
}

#[test]
fn parse_handles_the_32_bit_bounds() {
    assert_eq!(parse_i32(&b"2147483647".to_vec()), Some(i32::MAX));
    assert_eq!(parse_i32(&b"-2147483648".to_vec()), Some(i32::MIN));
    assert_eq!(parse_i32(&b"2147483648".to_vec()), None);
    assert_eq!(parse_i32(&b"-2147483649".to_vec()), None);
    assert_eq!(parse_i32(&b"99999999999999999999999999".to_vec()), None);
}

#[test]
fn parse_rejects_malformed_tokens() {
    assert_eq!(parse_i32(&b"".to_vec()), None);
    assert_eq!(parse_i32(&b"+".to_vec()), None);
    assert_eq!(parse_i32(&b"-".to_vec()), None);
    assert_eq!(parse_i32(&b"abc".to_vec()), None);
    assert_eq!(parse_i32(&b"1a".to_vec()), None);
    assert_eq!(parse_i32(&b" 1".to_vec()), None);
    assert_eq!(parse_i32(&b"1 ".to_vec()), None);
}

#[test]
fn override_keeps_order_and_drops_bad_tokens() {
    assert_eq!(parse_override(&b"0,1,2".to_vec()), vec![0, 1, 2]);
    assert_eq!(parse_override(&b"1,abc,2,,3".to_vec()), vec![1, 2, 3]);
    assert_eq!(parse_override(&b"abc".to_vec()), Vec::<i32>::new());
    assert_eq!(parse_override(&b",".to_vec()), Vec::<i32>::new());
    assert_eq!(parse_override(&b"42".to_vec()), vec![42]);
}

#[test]
fn override_replaces_defaults_regardless_of_network_flag() {
    let with_net = get_allowed_syscalls(true, Some(b"0,1,2".to_vec()));
    let without_net = get_allowed_syscalls(false, Some(b"0,1,2".to_vec()));
    assert_eq!(with_net.0, vec![0, 1, 2]);
    assert_eq!(without_net.0, vec![0, 1, 2]);
}

#[test]
fn defaults_without_network_are_the_baseline_table() {
    let (allow, _) = get_allowed_syscalls(false, None);
    assert_eq!(allow, BASELINE.to_vec());
    assert_eq!(baseline_allow_syscalls(), BASELINE.to_vec());
}

#[test]
fn defaults_with_network_append_the_network_table() {
    let (allow, _) = get_allowed_syscalls(true, None);
    let mut expected = BASELINE.to_vec();
    expected.extend_from_slice(&NETWORK);
    assert_eq!(allow, expected);
    assert_eq!(network_allow_syscalls(), NETWORK.to_vec());
}

#[test]
fn error_list_is_invariant() {
    assert_eq!(get_allowed_syscalls(false, None).1, ALLOW_ERROR.to_vec());
    assert_eq!(get_allowed_syscalls(true, None).1, ALLOW_ERROR.to_vec());
    assert_eq!(
        get_allowed_syscalls(false, Some(b"0,1,2".to_vec())).1,
        ALLOW_ERROR.to_vec()
    );
    assert_eq!(
        get_allowed_syscalls(true, Some(b"".to_vec())).1,
        ALLOW_ERROR.to_vec()
    );
    assert_eq!(allow_error_syscalls(), ALLOW_ERROR.to_vec());
}

#[test]
fn empty_override_is_treated_as_unset() {
    let (allow, _) = get_allowed_syscalls(false, Some(b"".to_vec()));
    assert_eq!(allow, BASELINE.to_vec());
    let (allow_net, _) = get_allowed_syscalls(true, Some(b"".to_vec()));
    assert_eq!(allow_net, default_allow_syscalls(true));
}

#[test]
fn unparsable_override_yields_an_empty_allow_list() {
    let (allow, err) = get_allowed_syscalls(true, Some(b"abc".to_vec()));
    assert_eq!(allow, Vec::<i32>::new());
    assert_eq!(err, ALLOW_ERROR.to_vec());
    let policy = resolve_policy(true, Some(b"abc".to_vec()));
    let plan = filter_plan(&policy);
    assert_eq!(plan.len(), 3);
    for (rule, sc) in plan.iter().zip(ALLOW_ERROR.iter()) {
        assert_eq!(rule.class, SyscallClass::AllowWithError);
        assert_eq!(rule.syscall, *sc);
    }
}

#[test]
fn filter_plan_lists_allow_rules_then_error_rules() {
    let policy = resolve_policy(false, None);
    let plan = filter_plan(&policy);
    assert_eq!(plan.len(), BASELINE.len() + ALLOW_ERROR.len());
    for (i, sc) in BASELINE.iter().enumerate() {
        assert_eq!(
            plan[i],
            FilterRule {
                class: SyscallClass::Allow,
                syscall: *sc
            }
        );
    }
    for (i, sc) in ALLOW_ERROR.iter().enumerate() {
        assert_eq!(
            plan[BASELINE.len() + i],
            FilterRule {
                class: SyscallClass::AllowWithError,
                syscall: *sc
            }
        );
    }
}

#[test]
fn override_source_name() {
    assert_eq!(allowed_syscalls_env_name(), "ALLOWED_SYSCALLS");
}
