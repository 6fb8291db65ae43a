//! Fanning the per-target state machines out and keeping them apart. The
//! coordinator owns one machine per configured target and the progress
//! slots the view reads. Targets never share state: stepping one machine
//! leaves every other exactly as it was, so one target's fatal failure
//! cannot block another's progress. The surrounding program runs the
//! machines concurrently; the decisions all live here.

use vstd::prelude::*;
use vstd::string::*;
use crate::config::Config;
use crate::state_machine::{
    event_accepted, event_applied, run_with_successes, DeployEvent, DeployPhase,
    TargetDeploymentStateMachine,
};
use crate::strutil::clone_strings;
use crate::ui_state::{TargetState, UIStore, UITargetState};

verus! {

/// The name a target is shown under: its configured name, or `"unnamed"`.
pub open spec fn target_display_name(name: Option<String>) -> Seq<char> {
    match name {
        Some(n) => n@,
        None => "unnamed"@,
    }
}

/// One registered progress slot: the starting state, the target's display
/// name, and no upload progress yet.
pub open spec fn slot_initialized(
    slots: Map<u32, TargetState>,
    k: u32,
    name: Option<String>,
) -> bool {
    &&& slots.contains_key(k)
    &&& slots[k].state == UITargetState::TARGET_START
    &&& slots[k].name@ == target_display_name(name)
    &&& slots[k].upload_package@ == "none"@
    &&& slots[k].upload_pos == 0
    &&& slots[k].upload_len == 0
}

/// Slots at index `n` and beyond are exactly as they were.
pub open spec fn slots_unchanged_from(
    before: Map<u32, TargetState>,
    after: Map<u32, TargetState>,
    n: int,
) -> bool {
    forall|k: u32|
        k >= n ==> ((#[trigger] after.contains_key(k) <==> before.contains_key(k)) && (
        before.contains_key(k) ==> after[k] == before[k]))
}

/// Owns every target's state machine and aggregates completion. One
/// machine exists per configured target, in configuration order.
pub struct DeploymentCoordinator {
    pub machines: Vec<TargetDeploymentStateMachine>,
}

impl DeploymentCoordinator {
    pub open spec fn wf(&self) -> bool {
        forall|i: int| 0 <= i < self.machines@.len() ==> (#[trigger] self.machines@[i]).wf()
    }

    /// Prepares the whole run: registers one progress slot per target, in
    /// the starting state and under the target's display name, and builds
    /// one fresh state machine per target with that target's packages in
    /// declared order. Slots of other indices are untouched.
    pub fn begin_deployment(config: &Config, store: &mut UIStore) -> (r: DeploymentCoordinator)
        requires
            config.targets@.len() <= u32::MAX,
        ensures
            r.wf(),
            r.machines@.len() == config.targets@.len(),
            forall|i: int|
                0 <= i < config.targets@.len() ==> (#[trigger] r.machines@[i]).packages@
                    == config.targets@[i].packages@,
            forall|i: int|
                0 <= i < config.targets@.len() ==> (#[trigger] r.machines@[i]).phase == (
                if config.targets@[i].packages@.len() == 0 {
                    DeployPhase::Done
                } else {
                    DeployPhase::Checksum
                }),
            forall|k: u32|
                k < config.targets@.len() ==> #[trigger] slot_initialized(
                    final(store).deployment_targets@,
                    k,
                    config.targets@[k as int].name,
                ),
            slots_unchanged_from(
                old(store).deployment_targets@,
                final(store).deployment_targets@,
                config.targets@.len() as int,
            ),
            final(store).screen == old(store).screen,
            final(store).targets_count == old(store).targets_count,
            final(store).packages_count == old(store).packages_count,
            final(store).deployed_count == old(store).deployed_count,
            final(store).exit_on_finish == old(store).exit_on_finish,
    {
        let mut machines: Vec<TargetDeploymentStateMachine> = Vec::new();
        let mut i: usize = 0;
        while i < config.targets.len()
            invariant
                i <= config.targets@.len(),
                config.targets@.len() <= u32::MAX,
                machines@.len() == i,
                forall|j: int| 0 <= j < i ==> (#[trigger] machines@[j]).wf(),
                forall|j: int|
                    0 <= j < i ==> (#[trigger] machines@[j]).packages@
                        == config.targets@[j].packages@,
                forall|j: int|
                    0 <= j < i ==> (#[trigger] machines@[j]).phase == (
                    if config.targets@[j].packages@.len() == 0 {
                        DeployPhase::Done
                    } else {
                        DeployPhase::Checksum
                    }),
                forall|k: u32|
                    k < i ==> #[trigger] slot_initialized(
                        store.deployment_targets@,
                        k,
                        config.targets@[k as int].name,
                    ),
                slots_unchanged_from(
                    old(store).deployment_targets@,
                    store.deployment_targets@,
                    i as int,
                ),
                store.screen == old(store).screen,
                store.targets_count == old(store).targets_count,
                store.packages_count == old(store).packages_count,
                store.deployed_count == old(store).deployed_count,
                store.exit_on_finish == old(store).exit_on_finish,
            decreases config.targets@.len() - i,
        {
            let target = &config.targets[i];
            let name = match &target.name {
                Some(n) => n.clone(),
                None => String::from_str("unnamed"),
            };
            let slot = TargetState {
                state: UITargetState::TARGET_START,
                name,
                upload_package: String::from_str("none"),
                upload_pos: 0,
                upload_len: 0,
            };
            let ghost before_slots = store.deployment_targets@;
            store.set_deployment_target(i as u32, slot);
            machines.push(TargetDeploymentStateMachine::new(clone_strings(&target.packages)));
            i = i + 1;
            proof {
                assert forall|k: u32|
                    k < i implies #[trigger] slot_initialized(
                    store.deployment_targets@,
                    k,
                    config.targets@[k as int].name,
                ) by {
                    if (k as int) < i - 1 {
                        assert(slot_initialized(
                            before_slots,
                            k,
                            config.targets@[k as int].name,
                        ));
                        assert(store.deployment_targets@[k] == before_slots[k]);
                    }
                }
            }
        }
        DeploymentCoordinator { machines }
    }

    pub fn target_count(&self) -> (r: usize)
        ensures
            r == self.machines@.len(),
    {
        self.machines.len()
    }

    /// Feeds one event to one target's machine. Every other target's
    /// machine is untouched: a failure of one target never reaches
    /// another.
    pub fn step_target(&mut self, index: usize, ev: DeployEvent)
        requires
            old(self).wf(),
            index < old(self).machines@.len(),
            event_accepted(old(self).machines@[index as int], ev),
        ensures
            final(self).wf(),
            final(self).machines@.len() == old(self).machines@.len(),
            forall|j: int|
                0 <= j < old(self).machines@.len() && j != index ==> final(self).machines@[j]
                    == #[trigger] old(self).machines@[j],
            event_applied(
                old(self).machines@[index as int],
                final(self).machines@[index as int],
                ev,
            ),
    {
        let mut m = self.machines.remove(index);
        m.apply(ev);
        let ghost mv = m;
        self.machines.insert(index, m);
        proof {
            assert(self.machines@ =~= old(self).machines@.update(index as int, mv));
        }
    }

    /// Abandons one target on a fatal configuration error. Only that
    /// target's machine moves to `Failed`; the rest are untouched.
    pub fn fail_target(&mut self, index: usize)
        requires
            old(self).wf(),
            index < old(self).machines@.len(),
            old(self).machines@[index as int].phase_active(),
        ensures
            final(self).wf(),
            final(self).machines@.len() == old(self).machines@.len(),
            forall|j: int|
                0 <= j < old(self).machines@.len() && j != index ==> final(self).machines@[j]
                    == #[trigger] old(self).machines@[j],
            final(self).machines@[index as int].phase == DeployPhase::Failed,
    {
        self.step_target(index, DeployEvent::Fatal);
    }

    /// Drives one non-failed target to `Done` by feeding it the success
    /// event for every action it asks for. Every other target's machine is
    /// untouched: all targets whose own work succeeds reach `Done`, no
    /// matter what became of the rest.
    pub fn run_target_with_successes(&mut self, index: usize)
        requires
            old(self).wf(),
            index < old(self).machines@.len(),
            old(self).machines@[index as int].phase != DeployPhase::Failed,
        ensures
            final(self).wf(),
            final(self).machines@.len() == old(self).machines@.len(),
            forall|j: int|
                0 <= j < old(self).machines@.len() && j != index ==> final(self).machines@[j]
                    == #[trigger] old(self).machines@[j],
            final(self).machines@[index as int].phase == DeployPhase::Done,
            final(self).machines@[index as int].packages == old(
                self,
            ).machines@[index as int].packages,
    {
        let mut m = self.machines.remove(index);
        run_with_successes(&mut m);
        let ghost mv = m;
        self.machines.insert(index, m);
        proof {
            assert(self.machines@ =~= old(self).machines@.update(index as int, mv));
        }
    }
}

} // verus!
