use seccomp_gate::machine::{InitMachine, InitStep};
use seccomp_gate::policy::SyscallClass;
use seccomp_gate::{get_lib_feature_static, get_lib_version_static};

const N_BASELINE: usize = 39;
const N_NETWORK: usize = 21;
const N_ERROR: usize = 3;

/// Drive a machine, succeeding every step, and collect the steps performed.
fn run_to_success(m: &mut InitMachine) -> Vec<InitStep> {
    let mut performed = Vec::new();
    while let Some(step) = m.current_step() {
        performed.push(step);
        m.report(true);
    }
    performed
}

#[test]
fn successful_run_reports_status_zero() {
    let mut m = InitMachine::new(1000, 1000, false, None);
    run_to_success(&mut m);
    assert_eq!(m.status(), Some(0));
}

#[test]
fn steps_come_in_the_fixed_order() {
    let mut m = InitMachine::new(1000, 1001, false, None);
    let steps = run_to_success(&mut m);
    assert_eq!(steps[0], InitStep::RestrictRoot);
    assert_eq!(steps[1], InitStep::EnterRoot);
    assert_eq!(steps[2], InitStep::BlockEscalation);
    assert_eq!(steps[3], InitStep::DropGroup(1001));
    assert_eq!(steps[4], InitStep::DropUser(1000));
    assert_eq!(steps[5], InitStep::CreateFilter);
    assert_eq!(steps.len(), 6 + N_BASELINE + N_ERROR + 1);
    for step in &steps[6..steps.len() - 1] {
        assert!(matches!(step, InitStep::AddRule(_)));
    }
    assert_eq!(*steps.last().unwrap(), InitStep::LoadFilter);
}

#[test]
fn network_flag_extends_the_rule_steps() {
    let mut m = InitMachine::new(1000, 1000, true, None);
    let steps = run_to_success(&mut m);
    assert_eq!(steps.len(), 6 + N_BASELINE + N_NETWORK + N_ERROR + 1);
}

#[test]
fn group_drop_precedes_user_drop() {
    let mut m = InitMachine::new(1000, 1000, false, None);
    let steps = run_to_success(&mut m);
    let gid_at = steps
        .iter()
        .position(|s| matches!(s, InitStep::DropGroup(_)))
        .unwrap();
    let uid_at = steps
        .iter()
        .position(|s| matches!(s, InitStep::DropUser(_)))
        .unwrap();
    assert!(gid_at < uid_at);
}

#[test]
fn first_failure_is_terminal_and_coded() {
    // Failing the very first step: filesystem-root restriction.
    let mut m = InitMachine::new(1000, 1000, false, None);
    assert_eq!(m.current_step(), Some(InitStep::RestrictRoot));
    m.report(false);
    assert_eq!(m.status(), Some(-1));
    assert_eq!(m.current_step(), None);
}

#[test]
fn each_stage_has_its_own_failure_code() {
    let expected = [
        (0, -1), // root restriction
        (1, -2), // entering the new root
        (2, -3), // escalation block
        (3, -4), // group drop
        (4, -5), // user drop
        (5, -6), // filter context creation
        (6, -7), // first allow rule
    ];
    for (fail_at, code) in expected {
        let mut m = InitMachine::new(1000, 1000, false, None);
        for _ in 0..fail_at {
            assert!(m.current_step().is_some());
            m.report(true);
        }
        assert!(m.current_step().is_some());
        m.report(false);
        assert_eq!(m.status(), Some(code));
        assert_eq!(m.current_step(), None);
    }
}

#[test]
fn error_rule_and_load_failures_have_their_codes() {
    // With an all-unparsable override the allow-list is empty, so the first
    // rule step is an allow-with-error rule.
    let mut m = InitMachine::new(1000, 1000, false, Some(b"abc".to_vec()));
    for _ in 0..6 {
        m.report(true);
    }
    match m.current_step() {
        Some(InitStep::AddRule(rule)) => assert_eq!(rule.class, SyscallClass::AllowWithError),
        other => panic!("expected a rule step, got {:?}", other),
    }
    m.report(false);
    assert_eq!(m.status(), Some(-8));

    // Succeeding every rule leaves only the load, whose failure is the last code.
    let mut m = InitMachine::new(1000, 1000, false, Some(b"abc".to_vec()));
    for _ in 0..(6 + N_ERROR) {
        m.report(true);
    }
    assert_eq!(m.current_step(), Some(InitStep::LoadFilter));
    m.report(false);
    assert_eq!(m.status(), Some(-9));
}

#[test]
fn filter_context_is_tracked_for_release() {
    let mut m = InitMachine::new(1000, 1000, false, None);
    assert!(!m.must_release());
    for _ in 0..5 {
        m.report(true);
    }
    assert_eq!(m.current_step(), Some(InitStep::CreateFilter));
    m.report(true);
    assert!(m.must_release());
    m.record_release();
    assert!(!m.must_release());
}

#[test]
fn failure_after_context_creation_still_needs_release() {
    let mut m = InitMachine::new(1000, 1000, false, None);
    for _ in 0..6 {
        m.report(true);
    }
    m.report(false);
    assert_eq!(m.status(), Some(-7));
    assert!(m.must_release());
}

#[test]
fn failure_before_context_creation_needs_no_release() {
    let mut m = InitMachine::new(1000, 1000, false, None);
    m.report(true);
    m.report(false);
    assert_eq!(m.status(), Some(-2));
    assert!(!m.must_release());
}

#[test]
fn status_is_pending_while_steps_remain() {
    let mut m = InitMachine::new(1000, 1000, false, None);
    assert_eq!(m.status(), None);
    m.report(true);
    assert_eq!(m.status(), None);
}

#[test]
fn override_scenario_keeps_only_listed_allow_rules() {
    let mut m = InitMachine::new(1000, 1000, true, Some(b"0,1,2".to_vec()));
    let steps = run_to_success(&mut m);
    let rules: Vec<InitStep> = steps
        .iter()
        .copied()
        .filter(|s| matches!(s, InitStep::AddRule(_)))
        .collect();
    assert_eq!(rules.len(), 3 + N_ERROR);
    for (rule, sc) in rules.iter().take(3).zip([0, 1, 2]) {
        match rule {
            InitStep::AddRule(r) => {
                assert_eq!(r.class, SyscallClass::Allow);
                assert_eq!(r.syscall, sc);
            }
            _ => unreachable!(),
        }
    }
}

#[test]
fn no_network_rules_without_the_network_flag() {
    // Socket creation is syscall 41 here; with networking disabled no rule
    // mentions it, so the filter's kill-process default covers it.
    let mut m = InitMachine::new(1000, 1000, false, None);
    let steps = run_to_success(&mut m);
    assert_eq!(m.status(), Some(0));
    assert!(steps.iter().all(|s| match s {
        InitStep::AddRule(r) => r.syscall != 41,
        _ => true,
    }));
    let mut with_net = InitMachine::new(1000, 1000, true, None);
    let net_steps = run_to_success(&mut with_net);
    assert!(net_steps.iter().any(|s| match s {
        InitStep::AddRule(r) => r.syscall == 41 && r.class == SyscallClass::Allow,
        _ => false,
    }));
}

#[test]
fn version_and_feature_strings() {
    assert_eq!(get_lib_version_static(), "0.1.0");
    assert_eq!(get_lib_feature_static(), "python3");
}
