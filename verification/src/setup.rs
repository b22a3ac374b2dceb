use vstd::prelude::*;
use crate::selection::SetupPlan;

verus! {

/// Which of the two devices of a plan a step is about.
#[derive(Debug, Clone, Copy, PartialEq, Eq)]
pub enum Role {
    Primary,
    Backup,
}

/// Which part of bringing a device up went wrong.
#[derive(Debug, Clone, Copy, PartialEq, Eq)]
pub enum Phase {
    Creation,
    SelfTest,
}

/// Where the bring-up stands, which is also what the caller does next:
/// create a device, run its self-test, hand the device out, or report the
/// error of the named device and phase.
#[derive(Debug, Clone, Copy, PartialEq, Eq)]
pub enum SetupStage {
    Create(Role),
    SelfTest(Role),
    Ready(Role),
    Failed(Role, Phase),
}

/// How the action asked for by the current stage turned out.
#[derive(Debug, Clone, Copy, PartialEq, Eq)]
pub enum SetupEvent {
    Succeeded,
    Failed,
}

/// Whether the bring-up has come to an end.
pub open spec fn is_finished(stage: SetupStage) -> bool {
    stage is Ready || stage is Failed
}

/// The stage after `stage` when its action turned out as `event`; a plan
/// with a backup turns to the backup when the primary cannot be created or
/// fails its self-test.
pub open spec fn next_stage(has_backup: bool, stage: SetupStage, event: SetupEvent) -> SetupStage {
    match (stage, event) {
        (SetupStage::Create(role), SetupEvent::Succeeded) => SetupStage::SelfTest(role),
        (SetupStage::SelfTest(role), SetupEvent::Succeeded) => SetupStage::Ready(role),
        (SetupStage::Create(Role::Primary), SetupEvent::Failed) => if has_backup {
            SetupStage::Create(Role::Backup)
        } else {
            SetupStage::Failed(Role::Primary, Phase::Creation)
        },
        (SetupStage::SelfTest(Role::Primary), SetupEvent::Failed) => if has_backup {
            SetupStage::Create(Role::Backup)
        } else {
            SetupStage::Failed(Role::Primary, Phase::SelfTest)
        },
        (SetupStage::Create(Role::Backup), SetupEvent::Failed) => SetupStage::Failed(
            Role::Backup,
            Phase::Creation,
        ),
        (SetupStage::SelfTest(Role::Backup), SetupEvent::Failed) => SetupStage::Failed(
            Role::Backup,
            Phase::SelfTest,
        ),
        _ => stage,
    }
}

/// Whether the plan has a second device.
pub open spec fn plan_has_backup<K>(plan: SetupPlan<K>) -> bool {
    plan is WithFallback
}

/// The device of `plan` that plays `role` (a single plan has only a primary).
pub open spec fn device_for<K>(plan: SetupPlan<K>, role: Role) -> K {
    match plan {
        SetupPlan::Single(kind) => kind,
        SetupPlan::WithFallback { primary, backup } => match role {
            Role::Primary => primary,
            Role::Backup => backup,
        },
    }
}

/// A plan with a fallback names its primary first and its backup second; a
/// single plan has one device, whatever the role.
pub proof fn lemma_device_roles<K>(plan: SetupPlan<K>, role: Role)
    ensures
        plan matches SetupPlan::WithFallback { primary, backup } ==> device_for(plan, Role::Primary)
            == primary && device_for(plan, Role::Backup) == backup,
        plan matches SetupPlan::Single(kind) ==> device_for(plan, role) == kind,
        plan_has_backup(plan) <==> !(plan is Single),
{
}

/// The bring-up of a device according to a plan.
pub struct SourceSetup<K> {
    plan: SetupPlan<K>,
    stage: SetupStage,
}

impl<K: Copy> SourceSetup<K> {
    /// The plan being followed.
    pub closed spec fn spec_plan(&self) -> SetupPlan<K> {
        self.plan
    }

    /// The current stage.
    pub closed spec fn spec_stage(&self) -> SetupStage {
        self.stage
    }

    /// Starts the bring-up: the primary device is created first.
    pub fn new(plan: SetupPlan<K>) -> (setup: Self)
        ensures
            setup.spec_plan() == plan,
            setup.spec_stage() == SetupStage::Create(Role::Primary),
    {
        SourceSetup { plan, stage: SetupStage::Create(Role::Primary) }
    }

    /// The current stage, that is what the caller does next.
    pub fn stage(&self) -> (stage: SetupStage)
        ensures
            stage == self.spec_stage(),
    {
        self.stage
    }

    /// The device that plays `role` in the plan.
    pub fn device(&self, role: Role) -> (kind: K)
        ensures
            kind == device_for(self.spec_plan(), role),
    {
        match self.plan {
            SetupPlan::Single(kind) => kind,
            SetupPlan::WithFallback { primary, backup } => match role {
                Role::Primary => primary,
                Role::Backup => backup,
            },
        }
    }

    /// Records how the action of the current stage turned out; a finished
    /// bring-up stays as it is.
    pub fn advance(&mut self, event: SetupEvent)
        ensures
            final(self).spec_plan() == old(self).spec_plan(),
            final(self).spec_stage() == next_stage(
                plan_has_backup(old(self).spec_plan()),
                old(self).spec_stage(),
                event,
            ),
    {
        let has_backup = match self.plan {
            SetupPlan::Single(_) => false,
            SetupPlan::WithFallback { .. } => true,
        };
        self.stage = match (self.stage, event) {
            (SetupStage::Create(role), SetupEvent::Succeeded) => SetupStage::SelfTest(role),
            (SetupStage::SelfTest(role), SetupEvent::Succeeded) => SetupStage::Ready(role),
            (SetupStage::Create(Role::Primary), SetupEvent::Failed) => if has_backup {
                SetupStage::Create(Role::Backup)
            } else {
                SetupStage::Failed(Role::Primary, Phase::Creation)
            },
            (SetupStage::SelfTest(Role::Primary), SetupEvent::Failed) => if has_backup {
                SetupStage::Create(Role::Backup)
            } else {
                SetupStage::Failed(Role::Primary, Phase::SelfTest)
            },
            (SetupStage::Create(Role::Backup), SetupEvent::Failed) => SetupStage::Failed(
                Role::Backup,
                Phase::Creation,
            ),
            (SetupStage::SelfTest(Role::Backup), SetupEvent::Failed) => SetupStage::Failed(
                Role::Backup,
                Phase::SelfTest,
            ),
            (stage, _) => stage,
        };
    }
}

/// How each of the four actions turns out when the world is asked.
pub struct Outcomes {
    pub primary_created: bool,
    pub primary_passes: bool,
    pub backup_created: bool,
    pub backup_passes: bool,
}

/// The answer the world gives to the action of `stage`.
pub open spec fn answer(stage: SetupStage, o: Outcomes) -> SetupEvent {
    let ok = match stage {
        SetupStage::Create(Role::Primary) => o.primary_created,
        SetupStage::SelfTest(Role::Primary) => o.primary_passes,
        SetupStage::Create(Role::Backup) => o.backup_created,
        SetupStage::SelfTest(Role::Backup) => o.backup_passes,
        _ => true,
    };
    if ok {
        SetupEvent::Succeeded
    } else {
        SetupEvent::Failed
    }
}

/// The stage reached after `steps` actions, starting at `stage`.
pub open spec fn run(has_backup: bool, stage: SetupStage, o: Outcomes, steps: nat) -> SetupStage
    decreases steps,
{
    if steps == 0 {
        stage
    } else {
        run(has_backup, next_stage(has_backup, stage, answer(stage, o)), o, (steps - 1) as nat)
    }
}

/// Where the bring-up ends: the primary when it is created and passes its
/// self-test; otherwise, with a backup, the backup or the backup's error;
/// without one, the primary's error.
pub open spec fn expected_end(has_backup: bool, o: Outcomes) -> SetupStage {
    if o.primary_created && o.primary_passes {
        SetupStage::Ready(Role::Primary)
    } else if !has_backup {
        if !o.primary_created {
            SetupStage::Failed(Role::Primary, Phase::Creation)
        } else {
            SetupStage::Failed(Role::Primary, Phase::SelfTest)
        }
    } else if !o.backup_created {
        SetupStage::Failed(Role::Backup, Phase::Creation)
    } else if !o.backup_passes {
        SetupStage::Failed(Role::Backup, Phase::SelfTest)
    } else {
        SetupStage::Ready(Role::Backup)
    }
}

/// A finished bring-up does not move, whatever is reported.
pub proof fn lemma_finished_is_final(has_backup: bool, stage: SetupStage, event: SetupEvent)
    requires
        is_finished(stage),
    ensures
        next_stage(has_backup, stage, event) == stage,
{
}

/// Bringing a device up ends within four actions, and it ends with the
/// primary when the primary is created and passes its self-test, else with
/// the backup when there is one that is created and passes, else with the
/// error of the last device tried, at the phase where it failed.
pub proof fn lemma_setup_outcome(has_backup: bool, o: Outcomes)
    ensures
        is_finished(run(has_backup, SetupStage::Create(Role::Primary), o, 4)),
        run(has_backup, SetupStage::Create(Role::Primary), o, 4) == expected_end(has_backup, o),
{
    reveal_with_fuel(run, 5);
}

/// Where the bring-up ends, stated on the outcomes: a primary that is created
/// and passes is handed out and the backup is never needed; otherwise a plan
/// with a backup hands out the backup when it is created and passes, and
/// reports the backup's own error (creation before self-test) when not; a
/// plan without a backup reports the primary's error at the phase that
/// failed. A device is handed out only if it was created and passed.
pub proof fn lemma_setup_ends_as_the_devices_allow(has_backup: bool, o: Outcomes)
    ensures
        o.primary_created && o.primary_passes ==> run(has_backup, SetupStage::Create(Role::Primary), o, 4)
            == SetupStage::Ready(Role::Primary),
        has_backup && !(o.primary_created && o.primary_passes) && o.backup_created && o.backup_passes
            ==> run(has_backup, SetupStage::Create(Role::Primary), o, 4) == SetupStage::Ready(
            Role::Backup,
        ),
        has_backup && !(o.primary_created && o.primary_passes) && !o.backup_created ==> run(
            has_backup,
            SetupStage::Create(Role::Primary),
            o,
            4,
        ) == SetupStage::Failed(Role::Backup, Phase::Creation),
        has_backup && !(o.primary_created && o.primary_passes) && o.backup_created && !o.backup_passes
            ==> run(has_backup, SetupStage::Create(Role::Primary), o, 4) == SetupStage::Failed(
            Role::Backup,
            Phase::SelfTest,
        ),
        !has_backup && !o.primary_created ==> run(has_backup, SetupStage::Create(Role::Primary), o, 4)
            == SetupStage::Failed(Role::Primary, Phase::Creation),
        !has_backup && o.primary_created && !o.primary_passes ==> run(
            has_backup,
            SetupStage::Create(Role::Primary),
            o,
            4,
        ) == SetupStage::Failed(Role::Primary, Phase::SelfTest),
        run(has_backup, SetupStage::Create(Role::Primary), o, 4) == SetupStage::Ready(Role::Primary)
            ==> o.primary_created && o.primary_passes,
        run(has_backup, SetupStage::Create(Role::Primary), o, 4) == SetupStage::Ready(Role::Backup)
            ==> has_backup && o.backup_created && o.backup_passes,
{
    reveal_with_fuel(run, 5);
}

/// Each step is about one device: a created device is self-tested next, a
/// device that passed is handed out, and it is the same device each time; a
/// failure of the primary moves on to creating the backup exactly when there
/// is one; a failure of the backup ends the bring-up with its error.
pub proof fn lemma_setup_steps(has_backup: bool, role: Role)
    ensures
        next_stage(has_backup, SetupStage::Create(role), SetupEvent::Succeeded) == SetupStage::SelfTest(
            role,
        ),
        next_stage(has_backup, SetupStage::SelfTest(role), SetupEvent::Succeeded) == SetupStage::Ready(
            role,
        ),
        next_stage(has_backup, SetupStage::Create(Role::Primary), SetupEvent::Failed) == (if has_backup {
            SetupStage::Create(Role::Backup)
        } else {
            SetupStage::Failed(Role::Primary, Phase::Creation)
        }),
        next_stage(has_backup, SetupStage::SelfTest(Role::Primary), SetupEvent::Failed) == (
        if has_backup {
            SetupStage::Create(Role::Backup)
        } else {
            SetupStage::Failed(Role::Primary, Phase::SelfTest)
        }),
        next_stage(has_backup, SetupStage::Create(Role::Backup), SetupEvent::Failed)
            == SetupStage::Failed(Role::Backup, Phase::Creation),
        next_stage(has_backup, SetupStage::SelfTest(Role::Backup), SetupEvent::Failed)
            == SetupStage::Failed(Role::Backup, Phase::SelfTest),
{
}

/// The backup is asked for only after the primary could not be created or
/// failed its self-test, and never without a backup in the plan.
pub proof fn lemma_backup_only_after_primary_fails(has_backup: bool, o: Outcomes, steps: nat)
    requires
        run(has_backup, SetupStage::Create(Role::Primary), o, steps) == SetupStage::Create(Role::Backup),
    ensures
        has_backup,
        !(o.primary_created && o.primary_passes),
{
    reveal_with_fuel(run, 5);
    if steps > 4 {
        lemma_run_settles(has_backup, o, steps);
    }
}

/// After four actions nothing changes any more.
proof fn lemma_run_settles(has_backup: bool, o: Outcomes, steps: nat)
    requires
        steps >= 4,
    ensures
        run(has_backup, SetupStage::Create(Role::Primary), o, steps) == run(
            has_backup,
            SetupStage::Create(Role::Primary),
            o,
            4,
        ),
    decreases steps,
{
    reveal_with_fuel(run, 5);
    if steps > 4 {
        lemma_run_settles(has_backup, o, (steps - 1) as nat);
        lemma_run_split(has_backup, SetupStage::Create(Role::Primary), o, (steps - 1) as nat);
    }
}

/// Running one more step is running the given steps and then one.
proof fn lemma_run_split(has_backup: bool, stage: SetupStage, o: Outcomes, steps: nat)
    ensures
        run(has_backup, stage, o, steps + 1) == {
            let mid = run(has_backup, stage, o, steps);
            next_stage(has_backup, mid, answer(mid, o))
        },
    decreases steps,
{
    reveal_with_fuel(run, 2);
    if steps > 0 {
        lemma_run_split(
            has_backup,
            next_stage(has_backup, stage, answer(stage, o)),
            o,
            (steps - 1) as nat,
        );
    }
}

} // verus!
