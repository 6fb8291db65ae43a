//! The per-target deployment state machine. One target runs three
//! sequential phases — checksum, upload, post-deploy — and each phase
//! processes the target's packages in declared order under a policy of
//! "retry the phase, skip what is already done": a transient failure
//! restarts the phase body, but per-package completion markers accumulated
//! within the phase are preserved, so finished packages are never
//! reprocessed. The machine only decides; the surrounding program performs
//! each requested action over the network and feeds the outcome back in.

use vstd::prelude::*;
use vstd::pervasive::VecAdditionalExecFns;
use crate::checksum::ChecksumMap;

verus! {

/// How many packages a phase still has to process.
pub open spec fn num_incomplete(s: Seq<bool>) -> nat
    decreases s.len(),
{
    if s.len() == 0 {
        0
    } else {
        (if s[0] {
            0nat
        } else {
            1nat
        }) + num_incomplete(s.drop_first())
    }
}

/// The first package index a phase retry picks up: the least index not yet
/// marked complete.
pub open spec fn first_incomplete_spec(s: Seq<bool>) -> int
    decreases s.len(),
{
    if s.len() == 0 {
        0
    } else if !s[0] {
        0
    } else {
        1 + first_incomplete_spec(s.drop_first())
    }
}

/// A phase with nothing left to process has every package marked.
pub proof fn lemma_num_incomplete_zero(s: Seq<bool>)
    ensures
        (num_incomplete(s) == 0) <==> (forall|i: int| 0 <= i < s.len() ==> s[i]),
    decreases s.len(),
{
    if s.len() > 0 {
        lemma_num_incomplete_zero(s.drop_first());
        if num_incomplete(s) == 0 {
            assert(forall|i: int|
                0 <= i < s.len() ==> #[trigger] s[i] == if i == 0 {
                    s[0]
                } else {
                    s.drop_first()[i - 1]
                });
        } else {
            if s[0] && forall|i: int| 0 <= i < s.drop_first().len() ==> s.drop_first()[i] {
            }
        }
    }
}

/// A fully unmarked phase has every package to process.
pub proof fn lemma_num_incomplete_all_false(s: Seq<bool>)
    requires
        forall|i: int| 0 <= i < s.len() ==> !s[i],
    ensures
        num_incomplete(s) == s.len(),
    decreases s.len(),
{
    if s.len() > 0 {
        assert(forall|i: int| 0 <= i < s.drop_first().len() ==> !s.drop_first()[i]);
        lemma_num_incomplete_all_false(s.drop_first());
    }
}

/// While a phase has work left, its first incomplete index is a real,
/// unmarked package, and everything before it is marked.
pub proof fn lemma_first_incomplete(s: Seq<bool>)
    requires
        num_incomplete(s) > 0,
    ensures
        0 <= first_incomplete_spec(s) < s.len(),
        !s[first_incomplete_spec(s)],
        forall|j: int| 0 <= j < first_incomplete_spec(s) ==> s[j],
    decreases s.len(),
{
    if s.len() > 0 && s[0] {
        lemma_first_incomplete(s.drop_first());
        assert(forall|j: int|
            1 <= j < first_incomplete_spec(s) ==> s[j] == s.drop_first()[j - 1]);
    }
}

/// Marking the first incomplete package leaves one fewer to process.
pub proof fn lemma_num_incomplete_update(s: Seq<bool>, i: int)
    requires
        0 <= i < s.len(),
        !s[i],
    ensures
        num_incomplete(s.update(i, true)) == num_incomplete(s) - 1,
    decreases s.len(),
{
    if i == 0 {
        assert(s.update(0, true).drop_first() =~= s.drop_first());
    } else {
        assert(s.update(i, true).drop_first() =~= s.drop_first().update(i - 1, true));
        lemma_num_incomplete_update(s.drop_first(), i - 1);
    }
}

/// The per-phase record of which packages finished that phase. Built fresh
/// at the start of each phase, but kept across reconnect attempts within
/// the phase, so a retry skips every marked package.
pub struct PhaseCompletionSet {
    pub done: Vec<bool>,
}

impl PhaseCompletionSet {
    /// A fresh set: nothing complete.
    pub fn new(count: usize) -> (r: PhaseCompletionSet)
        ensures
            r.done@.len() == count,
            forall|i: int| 0 <= i < count ==> !r.done@[i],
            num_incomplete(r.done@) == count,
    {
        let mut done: Vec<bool> = Vec::new();
        let mut i: usize = 0;
        while i < count
            invariant
                i <= count,
                done@.len() == i,
                forall|j: int| 0 <= j < i ==> !done@[j],
            decreases count - i,
        {
            done.push(false);
            i = i + 1;
        }
        proof {
            lemma_num_incomplete_all_false(done@);
        }
        PhaseCompletionSet { done }
    }

    pub fn is_complete(&self, i: usize) -> (r: bool)
        requires
            i < self.done@.len(),
        ensures
            r == self.done@[i as int],
    {
        self.done[i]
    }

    /// Marks one package as finished for this phase.
    pub fn mark_complete(&mut self, i: usize)
        requires
            i < old(self).done@.len(),
        ensures
            final(self).done@ == old(self).done@.update(i as int, true),
    {
        self.done.set(i, true);
    }

    /// The package a phase attempt processes next: the first one not yet
    /// complete, or `None` when the phase is finished.
    pub fn first_incomplete(&self) -> (r: Option<usize>)
        ensures
            match r {
                Some(i) => num_incomplete(self.done@) > 0 && i == first_incomplete_spec(
                    self.done@,
                ),
                None => num_incomplete(self.done@) == 0,
            },
    {
        let mut i: usize = 0;
        while i < self.done.len()
            invariant
                i <= self.done@.len(),
                forall|j: int| 0 <= j < i ==> self.done@[j],
            decreases self.done@.len() - i,
        {
            if !self.done[i] {
                proof {
                    lemma_first_incomplete_at(self.done@, i as int);
                }
                return Some(i);
            }
            i = i + 1;
        }
        proof {
            lemma_num_incomplete_zero(self.done@);
        }
        None
    }
}

/// A package that is unmarked while everything before it is marked is the
/// first incomplete one.
pub proof fn lemma_first_incomplete_at(s: Seq<bool>, i: int)
    requires
        0 <= i < s.len(),
        !s[i],
        forall|j: int| 0 <= j < i ==> s[j],
    ensures
        num_incomplete(s) > 0,
        first_incomplete_spec(s) == i,
    decreases s.len(),
{
    if i > 0 {
        assert(forall|j: int| 0 <= j < i - 1 ==> s.drop_first()[j] == s[j + 1]);
        lemma_first_incomplete_at(s.drop_first(), i - 1);
    }
}

/// Whether the machine, in its current phase, can take this event:
/// the phase is active and the event reports on that phase's work.
pub open spec fn event_accepted(pre: TargetDeploymentStateMachine, ev: DeployEvent) -> bool {
    &&& pre.wf()
    &&& pre.phase_active()
    &&& match ev {
        DeployEvent::ChecksumDone { .. } => pre.phase == DeployPhase::Checksum,
        DeployEvent::UploadDone | DeployEvent::NoChanges => pre.phase == DeployPhase::Upload,
        DeployEvent::PostDeployDone => pre.phase == DeployPhase::PostDeploy,
        DeployEvent::Transient | DeployEvent::Fatal => true,
    }
    &&& match ev {
        DeployEvent::ChecksumDone { checksums, .. } => checksums.wf(),
        _ => true,
    }
}

/// How one event transforms the machine: exactly what `apply` does.
pub open spec fn event_applied(
    pre: TargetDeploymentStateMachine,
    post: TargetDeploymentStateMachine,
    ev: DeployEvent,
) -> bool {
    &&& post.wf()
    &&& post.packages == pre.packages
    &&& ({
        let cur = first_incomplete_spec(pre.completed.done@);
        let advanced = num_incomplete(pre.completed.done@) == 1;
        let phase_after = if advanced {
            next_phase(pre.phase)
        } else {
            pre.phase
        };
        let marks_after = pre.completed.done@.update(cur, true);
        match ev {
            DeployEvent::Transient => post == pre,
            DeployEvent::Fatal => {
                &&& post.phase == DeployPhase::Failed
                &&& post.completed.done@ == pre.completed.done@
                &&& post.checksums == pre.checksums
                &&& post.temp_paths == pre.temp_paths
                &&& post.uploaded == pre.uploaded
            },
            DeployEvent::ChecksumDone { temp_path, checksums } => {
                &&& post.phase == phase_after
                &&& post.checksums@ == pre.checksums@.update(cur, checksums)
                &&& post.temp_paths@ == pre.temp_paths@.update(cur, Some(temp_path))
                &&& post.uploaded == pre.uploaded
                &&& (!advanced ==> post.completed.done@ == marks_after)
            },
            DeployEvent::UploadDone => {
                &&& post.phase == phase_after
                &&& post.uploaded@ == pre.uploaded@.update(cur, true)
                &&& post.checksums == pre.checksums
                &&& post.temp_paths == pre.temp_paths
                &&& (!advanced ==> post.completed.done@ == marks_after)
            },
            DeployEvent::NoChanges => {
                &&& post.phase == phase_after
                &&& post.uploaded == pre.uploaded
                &&& post.checksums == pre.checksums
                &&& post.temp_paths == pre.temp_paths
                &&& (!advanced ==> post.completed.done@ == marks_after)
            },
            DeployEvent::PostDeployDone => {
                &&& post.phase == phase_after
                &&& post.uploaded == pre.uploaded
                &&& post.checksums == pre.checksums
                &&& post.temp_paths == pre.temp_paths
                &&& (!advanced ==> post.completed.done@ == marks_after)
            },
        }
    })
    &&& ((!(ev is Transient) && !(ev is Fatal) && num_incomplete(pre.completed.done@) == 1)
        ==> {
        &&& post.completed.done@.len() == pre.packages@.len()
        &&& forall|j: int|
            0 <= j < post.completed.done@.len() ==> !(#[trigger] post.completed.done@[j])
    })
}

/// The three sequential phases of one target's deployment, and its two
/// terminal states.
#[derive(Copy, Clone, PartialEq, Eq, Structural, Debug)]
pub enum DeployPhase {
    /// Remote checksums are being gathered per package.
    Checksum,
    /// Changed packages are being archived and uploaded.
    Upload,
    /// Remote actions, extraction and cleanup are being run.
    PostDeploy,
    /// Every package finished every phase.
    Done,
    /// A fatal configuration error aborted this target.
    Failed,
}

/// The phase entered once every package finished the current one.
pub open spec fn next_phase(p: DeployPhase) -> DeployPhase {
    match p {
        DeployPhase::Checksum => DeployPhase::Upload,
        DeployPhase::Upload => DeployPhase::PostDeploy,
        DeployPhase::PostDeploy => DeployPhase::Done,
        DeployPhase::Done => DeployPhase::Done,
        DeployPhase::Failed => DeployPhase::Failed,
    }
}

/// What the machine asks the surrounding program to do next. Each
/// package-directed action stands for that package's whole work in the
/// current phase: creating its remote temp file and checksumming its files
/// in batches, or archiving and uploading it, or running its post-deploy
/// command sequence.
#[derive(Copy, Clone, PartialEq, Eq, Structural, Debug)]
pub enum DeployAction {
    ChecksumPackage { package_index: usize },
    UploadPackage { package_index: usize },
    PostDeployPackage { package_index: usize },
    Done,
    Failed,
}

/// How the requested action went. `Transient` restarts the current phase
/// (the caller reconnects first); `Fatal` abandons the target.
pub enum DeployEvent {
    /// The package's remote temp file was created and its checksum output
    /// parsed into a map.
    ChecksumDone { temp_path: String, checksums: ChecksumMap },
    /// The package's archive was fully uploaded.
    UploadDone,
    /// The package had no changed files; its upload was skipped.
    NoChanges,
    /// The package's post-deploy command sequence completed.
    PostDeployDone,
    /// A connection, channel, decode or transfer failure: retry the phase.
    Transient,
    /// A fatal configuration error: abandon the target.
    Fatal,
}

/// Drives one target through checksum, upload and post-deploy, owning the
/// resumability bookkeeping for that target.
pub struct TargetDeploymentStateMachine {
    /// The target's packages, in declared processing order.
    pub packages: Vec<String>,
    pub phase: DeployPhase,
    /// Completion markers for the current phase.
    pub completed: PhaseCompletionSet,
    /// Per package: the remote digest map gathered in the checksum phase.
    pub checksums: Vec<ChecksumMap>,
    /// Per package: its remote temporary file path, once created.
    pub temp_paths: Vec<Option<String>>,
    /// Per package: whether an archive was uploaded (false means "no
    /// changes" or not yet processed).
    pub uploaded: Vec<bool>,
}

impl TargetDeploymentStateMachine {
    pub open spec fn phase_active(&self) -> bool {
        self.phase == DeployPhase::Checksum || self.phase == DeployPhase::Upload || self.phase
            == DeployPhase::PostDeploy
    }

    pub open spec fn wf(&self) -> bool {
        &&& self.completed.done@.len() == self.packages@.len()
        &&& self.checksums@.len() == self.packages@.len()
        &&& self.temp_paths@.len() == self.packages@.len()
        &&& self.uploaded@.len() == self.packages@.len()
        &&& (forall|i: int| 0 <= i < self.checksums@.len() ==> (#[trigger] self.checksums@[i]).wf())
        &&& (self.phase_active() ==> num_incomplete(self.completed.done@) > 0)
        &&& (self.phase_active() ==> self.packages@.len() > 0)
    }

    /// A fresh machine for one target: the checksum phase with nothing
    /// done, or immediately `Done` when the target has no packages.
    pub fn new(packages: Vec<String>) -> (m: TargetDeploymentStateMachine)
        ensures
            m.wf(),
            m.packages == packages,
            m.phase == if packages@.len() == 0 {
                DeployPhase::Done
            } else {
                DeployPhase::Checksum
            },
            forall|i: int| 0 <= i < packages@.len() ==> !(#[trigger] m.completed.done@[i]),
            forall|i: int| 0 <= i < packages@.len() ==> (#[trigger] m.temp_paths@[i]) is None,
            forall|i: int| 0 <= i < packages@.len() ==> !(#[trigger] m.uploaded@[i]),
            forall|i: int|
                0 <= i < packages@.len() ==> (#[trigger] m.checksums@[i]).files@.len() == 0,
    {
        let n = packages.len();
        let completed = PhaseCompletionSet::new(n);
        let mut checksums: Vec<ChecksumMap> = Vec::new();
        let mut temp_paths: Vec<Option<String>> = Vec::new();
        let mut uploaded: Vec<bool> = Vec::new();
        let mut i: usize = 0;
        while i < n
            invariant
                i <= n,
                checksums@.len() == i,
                temp_paths@.len() == i,
                uploaded@.len() == i,
                forall|j: int| 0 <= j < i ==> (#[trigger] checksums@[j]).wf(),
                forall|j: int| 0 <= j < i ==> (#[trigger] checksums@[j]).files@.len() == 0,
                forall|j: int| 0 <= j < i ==> (#[trigger] temp_paths@[j]) is None,
                forall|j: int| 0 <= j < i ==> !(#[trigger] uploaded@[j]),
            decreases n - i,
        {
            checksums.push(ChecksumMap::empty());
            temp_paths.push(None);
            uploaded.push(false);
            i = i + 1;
        }
        let phase = if n == 0 {
            DeployPhase::Done
        } else {
            DeployPhase::Checksum
        };
        TargetDeploymentStateMachine { packages, phase, completed, checksums, temp_paths, uploaded }
    }

    /// What to do next: the first incomplete package of the current phase,
    /// or the terminal answer.
    pub open spec fn spec_next_action(&self) -> DeployAction {
        match self.phase {
            DeployPhase::Checksum => DeployAction::ChecksumPackage {
                package_index: first_incomplete_spec(self.completed.done@) as usize,
            },
            DeployPhase::Upload => DeployAction::UploadPackage {
                package_index: first_incomplete_spec(self.completed.done@) as usize,
            },
            DeployPhase::PostDeploy => DeployAction::PostDeployPackage {
                package_index: first_incomplete_spec(self.completed.done@) as usize,
            },
            DeployPhase::Done => DeployAction::Done,
            DeployPhase::Failed => DeployAction::Failed,
        }
    }

    pub fn next_action(&self) -> (a: DeployAction)
        requires
            self.wf(),
        ensures
            a == self.spec_next_action(),
    {
        match self.phase {
            DeployPhase::Done => DeployAction::Done,
            DeployPhase::Failed => DeployAction::Failed,
            _ => {
                let cur = match self.completed.first_incomplete() {
                    Some(i) => i,
                    None => {
                        return vstd::pervasive::unreached();
                    },
                };
                match self.phase {
                    DeployPhase::Checksum => DeployAction::ChecksumPackage { package_index: cur },
                    DeployPhase::Upload => DeployAction::UploadPackage { package_index: cur },
                    _ => DeployAction::PostDeployPackage { package_index: cur },
                }
            },
        }
    }

    /// Marks the current package complete and, once every package finished
    /// the phase, enters the next phase with a fresh completion set.
    fn complete_current(&mut self, cur: usize)
        requires
            old(self).wf(),
            old(self).phase_active(),
            cur == first_incomplete_spec(old(self).completed.done@),
        ensures
            final(self).wf(),
            final(self).packages == old(self).packages,
            final(self).phase == if num_incomplete(old(self).completed.done@) == 1 {
                next_phase(old(self).phase)
            } else {
                old(self).phase
            },
            if num_incomplete(old(self).completed.done@) == 1 {
                &&& final(self).completed.done@.len() == old(self).packages@.len()
                &&& forall|j: int|
                    0 <= j < final(self).completed.done@.len() ==> !(
                    #[trigger] final(self).completed.done@[j])
            } else {
                final(self).completed.done@ == old(self).completed.done@.update(cur as int, true)
            },
            final(self).checksums == old(self).checksums,
            final(self).temp_paths == old(self).temp_paths,
            final(self).uploaded == old(self).uploaded,
    {
        proof {
            lemma_first_incomplete(self.completed.done@);
            lemma_num_incomplete_update(self.completed.done@, cur as int);
        }
        self.completed.mark_complete(cur);
        let done_now = match self.completed.first_incomplete() {
            Some(_) => false,
            None => true,
        };
        if done_now {
            let n = self.packages.len();
            self.completed = PhaseCompletionSet::new(n);
            self.phase = match self.phase {
                DeployPhase::Checksum => DeployPhase::Upload,
                DeployPhase::Upload => DeployPhase::PostDeploy,
                _ => DeployPhase::Done,
            };
        }
    }

    /// Feeds back how the requested package action went. A transient
    /// failure leaves the machine exactly as it was — in particular every
    /// completion marker survives, so the phase retry skips finished
    /// packages. A fatal error abandons the target. A success records the
    /// package's results, marks it complete, and advances the phase once
    /// every package is done with it.
    pub fn apply(&mut self, ev: DeployEvent)
        requires
            event_accepted(*old(self), ev),
        ensures
            event_applied(*old(self), *final(self), ev),
    {
        match ev {
            DeployEvent::Transient => {},
            DeployEvent::Fatal => {
                self.phase = DeployPhase::Failed;
            },
            DeployEvent::ChecksumDone { temp_path, checksums } => {
                let cur = match self.completed.first_incomplete() {
                    Some(i) => i,
                    None => {
                        return vstd::pervasive::unreached();
                    },
                };
                proof {
                    lemma_first_incomplete(self.completed.done@);
                }
                self.checksums.set(cur, checksums);
                self.temp_paths.set(cur, Some(temp_path));
                self.complete_current(cur);
            },
            DeployEvent::UploadDone => {
                let cur = match self.completed.first_incomplete() {
                    Some(i) => i,
                    None => {
                        return vstd::pervasive::unreached();
                    },
                };
                proof {
                    lemma_first_incomplete(self.completed.done@);
                }
                self.uploaded.set(cur, true);
                self.complete_current(cur);
            },
            DeployEvent::NoChanges => {
                let cur = match self.completed.first_incomplete() {
                    Some(i) => i,
                    None => {
                        return vstd::pervasive::unreached();
                    },
                };
                self.complete_current(cur);
            },
            DeployEvent::PostDeployDone => {
                let cur = match self.completed.first_incomplete() {
                    Some(i) => i,
                    None => {
                        return vstd::pervasive::unreached();
                    },
                };
                self.complete_current(cur);
            },
        }
    }
}

/// How many successful package steps stand between the machine and its
/// terminal state: each remaining phase costs one step per package.
pub open spec fn steps_remaining(m: TargetDeploymentStateMachine) -> int {
    let n = m.packages@.len() as int;
    match m.phase {
        DeployPhase::Checksum => 2 * n + num_incomplete(m.completed.done@),
        DeployPhase::Upload => n + num_incomplete(m.completed.done@),
        DeployPhase::PostDeploy => num_incomplete(m.completed.done@) as int,
        DeployPhase::Done => 0,
        DeployPhase::Failed => 0,
    }
}

/// A target whose requested actions keep succeeding reaches the terminal
/// `Done` state: no other target's behaviour enters into it. Each step
/// feeds the machine the success event for the action it asked for.
pub fn run_with_successes(m: &mut TargetDeploymentStateMachine)
    requires
        old(m).wf(),
        old(m).phase != DeployPhase::Failed,
    ensures
        final(m).wf(),
        final(m).phase == DeployPhase::Done,
        final(m).packages == old(m).packages,
{
    loop
        invariant
            m.wf(),
            m.phase != DeployPhase::Failed,
            m.packages == old(m).packages,
        ensures
            m.wf(),
            m.phase == DeployPhase::Done,
            m.packages == old(m).packages,
        decreases steps_remaining(*m),
    {
        let ghost pre = *m;
        let action = m.next_action();
        match action {
            DeployAction::Done => {
                break ;
            },
            DeployAction::Failed => {
                return vstd::pervasive::unreached();
            },
            DeployAction::ChecksumPackage { .. } => {
                proof {
                    lemma_first_incomplete(pre.completed.done@);
                    lemma_num_incomplete_update(
                        pre.completed.done@,
                        first_incomplete_spec(pre.completed.done@),
                    );
                }
                m.apply(
                    DeployEvent::ChecksumDone {
                        temp_path: String::new(),
                        checksums: ChecksumMap::empty(),
                    },
                );
                proof {
                    if num_incomplete(pre.completed.done@) == 1 {
                        lemma_num_incomplete_all_false(m.completed.done@);
                    }
                }
            },
            DeployAction::UploadPackage { .. } => {
                proof {
                    lemma_first_incomplete(pre.completed.done@);
                    lemma_num_incomplete_update(
                        pre.completed.done@,
                        first_incomplete_spec(pre.completed.done@),
                    );
                }
                m.apply(DeployEvent::UploadDone);
                proof {
                    if num_incomplete(pre.completed.done@) == 1 {
                        lemma_num_incomplete_all_false(m.completed.done@);
                    }
                }
            },
            DeployAction::PostDeployPackage { .. } => {
                proof {
                    lemma_first_incomplete(pre.completed.done@);
                    lemma_num_incomplete_update(
                        pre.completed.done@,
                        first_incomplete_spec(pre.completed.done@),
                    );
                }
                m.apply(DeployEvent::PostDeployDone);
                proof {
                    if num_incomplete(pre.completed.done@) == 1 {
                        lemma_num_incomplete_all_false(m.completed.done@);
                    }
                }
            },
        }
    }
}

/// Once a package is marked complete within a phase, no retry of that
/// phase processes it again: the next requested action always targets an
/// incomplete package.
pub proof fn lemma_completed_package_skipped(m: TargetDeploymentStateMachine, i: int)
    requires
        m.wf(),
        m.phase_active(),
        m.completed.done@.len() <= usize::MAX,
        0 <= i < m.completed.done@.len(),
        m.completed.done@[i],
    ensures
        match m.spec_next_action() {
            DeployAction::ChecksumPackage { package_index } => package_index != i,
            DeployAction::UploadPackage { package_index } => package_index != i,
            DeployAction::PostDeployPackage { package_index } => package_index != i,
            DeployAction::Done => true,
            DeployAction::Failed => true,
        },
{
    lemma_first_incomplete(m.completed.done@);
}

} // verus!
