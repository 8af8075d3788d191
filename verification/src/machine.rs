//! The initialization step machine.
//!
//! Sandbox initialization is a fixed sequence of irreversible OS transitions:
//! restrict the filesystem root, enter the new root, block privilege
//! escalation, drop the group identity, drop the user identity, create the
//! filter context, add every filter rule, and load the filter. The machine
//! owns that sequence and its fail-fast discipline; an unverified driver
//! performs each step it is handed and reports the outcome back.
//!
//! The first failure is terminal: the machine records the failing step's
//! status code and hands out no further step. The machine also tracks whether
//! the driver holds a live filter context, so that the context is released
//! exactly once on every path once it was created.

use vstd::prelude::*;

use crate::policy::{
    filter_plan,
    opt_bytes_view,
    resolve_policy,
    spec_allow_list,
    spec_filter_plan,
    FilterRule,
    SyscallClass,
};
use crate::tables::allow_error_seq;

verus! {

/// One step of the initialization sequence, with the argument the driver
/// needs to perform it.
#[derive(Clone, Copy, PartialEq, Eq, Structural, Debug)]
pub enum InitStep {
    /// Change the filesystem root to the current working directory.
    RestrictRoot,
    /// Change the working directory to the new root.
    EnterRoot,
    /// Set the no-new-privileges process attribute.
    BlockEscalation,
    /// Set the process's group identity.
    DropGroup(u32),
    /// Set the process's user identity.
    DropUser(u32),
    /// Create the filter context, with kill-process as the default action.
    CreateFilter,
    /// Add one rule to the filter context.
    AddRule(FilterRule),
    /// Atomically load the assembled filter into the kernel.
    LoadFilter,
}

/// The status code a step's failure is reported as: one distinct negative
/// code per failable step.
pub open spec fn spec_failure_code(step: InitStep) -> i32 {
    match step {
        InitStep::RestrictRoot => -1i32,
        InitStep::EnterRoot => -2i32,
        InitStep::BlockEscalation => -3i32,
        InitStep::DropGroup(_) => -4i32,
        InitStep::DropUser(_) => -5i32,
        InitStep::CreateFilter => -6i32,
        InitStep::AddRule(r) => match r.class {
            SyscallClass::Allow => -7i32,
            SyscallClass::AllowWithError => -8i32,
        },
        InitStep::LoadFilter => -9i32,
    }
}

/// Exec counterpart of the failure code table.
pub fn failure_code(step: InitStep) -> (c: i32)
    ensures
        c == spec_failure_code(step),
{
    match step {
        InitStep::RestrictRoot => -1,
        InitStep::EnterRoot => -2,
        InitStep::BlockEscalation => -3,
        InitStep::DropGroup(_) => -4,
        InitStep::DropUser(_) => -5,
        InitStep::CreateFilter => -6,
        InitStep::AddRule(r) => match r.class {
            SyscallClass::Allow => -7,
            SyscallClass::AllowWithError => -8,
        },
        InitStep::LoadFilter => -9,
    }
}

/// The full initialization sequence for a target identity and a filter plan.
pub open spec fn spec_init_steps(uid: u32, gid: u32, plan: Seq<FilterRule>) -> Seq<InitStep> {
    seq![
        InitStep::RestrictRoot,
        InitStep::EnterRoot,
        InitStep::BlockEscalation,
        InitStep::DropGroup(gid),
        InitStep::DropUser(uid),
        InitStep::CreateFilter,
    ] + plan.map_values(|r: FilterRule| InitStep::AddRule(r)) + seq![InitStep::LoadFilter]
}

/// The step machine: the remaining sequence, the position reached, the first
/// failure if one was reported, and whether the driver holds a live filter
/// context.
pub struct InitMachine {
    pub uid: u32,
    pub gid: u32,
    pub steps: Vec<InitStep>,
    pub pos: usize,
    pub failure: Option<i32>,
    pub context_live: bool,
    pub plan: Ghost<Seq<FilterRule>>,
}

impl InitMachine {
    /// The machine's steps are the canonical sequence for its identity and
    /// plan, the position is in range, and any recorded failure carries one
    /// of the nine step codes.
    pub open spec fn wf(self) -> bool {
        &&& self.steps@ == spec_init_steps(self.uid, self.gid, self.plan@)
        &&& self.pos <= self.steps@.len()
        &&& match self.failure {
            Some(c) => -9 <= c <= -1,
            None => true,
        }
    }

    /// A step is still owed and no failure was recorded.
    pub open spec fn in_progress(self) -> bool {
        self.failure is None && self.pos < self.steps@.len()
    }

    /// Every step was performed and none failed.
    pub open spec fn succeeded(self) -> bool {
        self.failure is None && self.pos == self.steps@.len()
    }

    pub open spec fn terminal(self) -> bool {
        !self.in_progress()
    }

    /// The status the initialization reports: zero on success, the failing
    /// step's code on failure, nothing while steps are still owed.
    pub open spec fn spec_status(self) -> Option<i32> {
        match self.failure {
            Some(c) => Some(c),
            None => if self.pos == self.steps@.len() {
                Some(0)
            } else {
                None
            },
        }
    }

    /// Build the machine for one initialization call: resolve the policy,
    /// lay out the filter plan, and fix the full step sequence.
    pub fn new(uid: u32, gid: u32, enable_network: bool, override_val: Option<Vec<u8>>) -> (m:
        InitMachine)
        ensures
            m.wf(),
            m.uid == uid,
            m.gid == gid,
            m.pos == 0,
            m.failure is None,
            !m.context_live,
            m.plan@ == spec_filter_plan(
                spec_allow_list(enable_network, opt_bytes_view(override_val)),
                allow_error_seq(),
            ),
    {
        let policy = resolve_policy(enable_network, override_val);
        let plan = filter_plan(&policy);
        let n = plan.len();
        let mut steps: Vec<InitStep> = Vec::new();
        steps.push(InitStep::RestrictRoot);
        steps.push(InitStep::EnterRoot);
        steps.push(InitStep::BlockEscalation);
        steps.push(InitStep::DropGroup(gid));
        steps.push(InitStep::DropUser(uid));
        steps.push(InitStep::CreateFilter);
        let mut i: usize = 0;
        while i < n
            invariant
                i <= n == plan@.len(),
                steps@.len() == 6 + i,
                forall|j: int| 0 <= j < i ==> steps@[6 + j] == InitStep::AddRule(plan@[j]),
                steps@.subrange(0, 6) =~= seq![
                    InitStep::RestrictRoot,
                    InitStep::EnterRoot,
                    InitStep::BlockEscalation,
                    InitStep::DropGroup(gid),
                    InitStep::DropUser(uid),
                    InitStep::CreateFilter,
                ],
            decreases n - i,
        {
            steps.push(InitStep::AddRule(plan[i]));
            i = i + 1;
        }
        steps.push(InitStep::LoadFilter);
        proof {
            assert(steps@ =~= spec_init_steps(uid, gid, plan@));
        }
        InitMachine {
            uid,
            gid,
            steps,
            pos: 0,
            failure: None,
            context_live: false,
            plan: Ghost(plan@),
        }
    }

    /// The step the driver must perform next, if one is owed.
    pub fn current_step(&self) -> (r: Option<InitStep>)
        ensures
            self.in_progress() ==> r == Some(self.steps@[self.pos as int]),
            !self.in_progress() ==> r is None,
    {
        if self.failure.is_none() && self.pos < self.steps.len() {
            Some(self.steps[self.pos])
        } else {
            None
        }
    }

    /// Record the outcome of the current step. Success advances the
    /// sequence (and notes the live filter context once it is created);
    /// failure is terminal and records the step's status code.
    pub fn report(&mut self, ok: bool)
        requires
            old(self).wf(),
            old(self).in_progress(),
        ensures
            final(self).wf(),
            final(self).uid == old(self).uid,
            final(self).gid == old(self).gid,
            final(self).steps == old(self).steps,
            final(self).plan == old(self).plan,
            ok ==> {
                &&& final(self).pos == old(self).pos + 1
                &&& final(self).failure is None
                &&& final(self).context_live == (old(self).context_live || old(self).steps@[old(
                    self,
                ).pos as int] == InitStep::CreateFilter)
            },
            !ok ==> {
                &&& final(self).pos == old(self).pos
                &&& final(self).failure == Some(
                    spec_failure_code(old(self).steps@[old(self).pos as int]),
                )
                &&& final(self).context_live == old(self).context_live
            },
    {
        if ok {
            match self.steps[self.pos] {
                InitStep::CreateFilter => {
                    self.context_live = true;
                },
                _ => {},
            }
            let n = self.steps.len();
            assert(self.pos < n);
            self.pos = self.pos + 1;
        } else {
            let code = failure_code(self.steps[self.pos]);
            self.failure = Some(code);
        }
    }

    /// Whether the driver holds a live filter context it must release.
    pub fn must_release(&self) -> (b: bool)
        ensures
            b == self.context_live,
    {
        self.context_live
    }

    /// Record that the driver released the filter context.
    pub fn record_release(&mut self)
        requires
            old(self).context_live,
        ensures
            final(self).context_live == false,
            final(self).uid == old(self).uid,
            final(self).gid == old(self).gid,
            final(self).steps == old(self).steps,
            final(self).plan == old(self).plan,
            final(self).pos == old(self).pos,
            final(self).failure == old(self).failure,
    {
        self.context_live = false;
    }

    /// The initialization's status, once no step is owed any more.
    pub fn status(&self) -> (r: Option<i32>)
        ensures
            r == self.spec_status(),
    {
        match self.failure {
            Some(c) => Some(c),
            None => if self.pos == self.steps.len() {
                Some(0)
            } else {
                None
            },
        }
    }
}

/// The fixed order of the one-way transitions: root restriction comes first,
/// the escalation block precedes the identity drop, the group is dropped
/// strictly before the user, and only then is the filter created, filled
/// rule by rule, and loaded last.
pub proof fn lemma_step_order(uid: u32, gid: u32, plan: Seq<FilterRule>)
    ensures
        spec_init_steps(uid, gid, plan).len() == plan.len() + 7,
        spec_init_steps(uid, gid, plan)[0] == InitStep::RestrictRoot,
        spec_init_steps(uid, gid, plan)[1] == InitStep::EnterRoot,
        spec_init_steps(uid, gid, plan)[2] == InitStep::BlockEscalation,
        spec_init_steps(uid, gid, plan)[3] == InitStep::DropGroup(gid),
        spec_init_steps(uid, gid, plan)[4] == InitStep::DropUser(uid),
        spec_init_steps(uid, gid, plan)[5] == InitStep::CreateFilter,
        forall|j: int|
            0 <= j < plan.len() ==> spec_init_steps(uid, gid, plan)[6 + j] == InitStep::AddRule(
                plan[j],
            ),
        spec_init_steps(uid, gid, plan).last() == InitStep::LoadFilter,
{
}

/// A machine that reports success has performed every step: in particular it
/// restricted the root first and set the process's identity to exactly the
/// target user and group, group before user, before the filter was built.
pub proof fn lemma_success_performed_identity_drop(m: InitMachine)
    requires
        m.wf(),
        m.spec_status() == Some(0i32),
    ensures
        m.pos == m.steps@.len(),
        m.steps@[0] == InitStep::RestrictRoot,
        m.steps@[3] == InitStep::DropGroup(m.gid),
        m.steps@[4] == InitStep::DropUser(m.uid),
        m.steps@[5] == InitStep::CreateFilter,
{
    lemma_step_order(m.uid, m.gid, m.plan@);
}

/// A terminal machine's status is decided: zero exactly on success, and one
/// of the nine step codes otherwise.
pub proof fn lemma_status_is_stage_code(m: InitMachine)
    requires
        m.wf(),
        m.terminal(),
    ensures
        m.spec_status() is Some,
        m.spec_status() == Some(0i32) <==> m.succeeded(),
        match m.spec_status() {
            Some(c) => c == 0 || -9 <= c <= -1,
            None => false,
        },
{
}

} // verus!
