use vstd::prelude::*;

use crate::links::{clone_link_spec, get_clone_link_for_repo, has_category, clone_category, ssh_label, BitBucketRepo};
use crate::probe::{ConflictReason, LocalState};
use crate::refs::{latest_branch, select_latest_branch};

verus! {

/// How a version-control command ended.
pub enum ExitResult {
    Success,
    NonZeroExit(i32),
    TerminatedBySignal,
    SpawnFailed(String),
}

/// The first thing that went wrong while synchronising a repository.
pub enum SyncFailure {
    /// The descriptor has no `clone` link category.
    MalformedDescriptor,
    /// The repository's directory could not be entered.
    EnterDirectory,
    Clone(ExitResult),
    ListRefs(ExitResult),
    /// The ref listing was not valid text.
    UndecodableRefs,
    Checkout(ExitResult),
    Pull(ExitResult),
}

/// Why a repository was left alone.
pub enum SkipReason {
    /// Its local path is occupied by something unusable.
    Conflict(ConflictReason),
    /// It has no clone link of the wanted transport.
    NoCloneLink,
}

/// How the synchronisation of one repository ended.
pub enum SyncOutcome {
    Cloned,
    AlreadyUpToDate,
    Skipped(SkipReason),
    Failed(SyncFailure),
}

/// Where the synchronisation of the current repository stands.
pub enum Phase {
    /// Between repositories: the next one has not been started.
    Ready,
    Probing,
    Cloning,
    Entering,
    Listing,
    CheckingOut,
    Pulling,
    Leaving,
    /// Every repository has been handled.
    Finished,
}

/// What the caller reports back after carrying out an action.
pub enum SyncEvent {
    /// Go on with the next repository (after a report, and at the start).
    Proceed,
    /// What probing the repository's local path found.
    Probed(LocalState),
    CloneFinished(ExitResult),
    /// Whether changing into the repository's directory worked.
    Entered(bool),
    /// How listing the remote refs ended, and its output when that was valid text.
    RefsListed(ExitResult, Option<String>),
    CheckoutFinished(ExitResult),
    PullFinished(ExitResult),
    /// The working directory is back in the target directory.
    Left,
}

/// What the caller is to do next.
pub enum SyncAction {
    /// Inspect the local path named by this slug.
    Probe(String),
    /// Clone from this link, in the target directory.
    Clone(String),
    /// Change into the directory named by this slug.
    EnterDirectory(String),
    /// List the remote branches, newest commit first.
    ListRefs,
    /// Check out this branch.
    Checkout(String),
    Pull,
    /// Change back into the target directory.
    LeaveDirectory,
    /// The current repository is done, with this outcome.
    Report(SyncOutcome),
    /// Every repository has been handled.
    AllDone,
    /// The event does not fit the current phase; nothing changed.
    Unexpected,
}

/// Drives the synchronisation of a project's repositories, one after the other,
/// one step per event.
pub struct RepoSyncMachine {
    pub repos: Vec<BitBucketRepo>,
    /// The repository in progress, or the next one to start.
    pub current: usize,
    /// How many repositories have been started.
    pub attempted: usize,
    pub phase: Phase,
    /// Whether the working directory is the current repository's directory.
    pub in_repo_dir: bool,
    /// Whether the current repository was cloned in this run.
    pub cloned: bool,
    pub failure: Option<SyncFailure>,
}

/// Whether the working directory is inside a repository in this phase.
pub open spec fn phase_in_repo_dir(p: Phase) -> bool {
    p is Listing || p is CheckingOut || p is Pulling || p is Leaving
}

/// Keeps the first failure.
pub open spec fn first_failure(f: Option<SyncFailure>, new: SyncFailure) -> Option<SyncFailure> {
    if f is Some {
        f
    } else {
        Some(new)
    }
}

/// The failure that an exit adds: none for a success.
pub open spec fn after_exit(
    f: Option<SyncFailure>,
    x: ExitResult,
    new: SyncFailure,
) -> Option<SyncFailure> {
    if x is Success {
        f
    } else {
        first_failure(f, new)
    }
}

/// The outcome of a repository whose branch-sync phase was left.
pub open spec fn final_outcome(m: RepoSyncMachine) -> SyncOutcome {
    match m.failure {
        Some(f) => SyncOutcome::Failed(f),
        None => if m.cloned {
            SyncOutcome::Cloned
        } else {
            SyncOutcome::AlreadyUpToDate
        },
    }
}

impl RepoSyncMachine {
    pub open spec fn wf(&self) -> bool {
        &&& self.current <= self.repos@.len() <= usize::MAX
        &&& self.in_repo_dir == phase_in_repo_dir(self.phase)
        &&& if self.phase is Ready || self.phase is Finished {
            self.attempted == self.current
        } else {
            self.current < self.repos@.len() && self.attempted == self.current + 1
        }
        &&& self.phase is Finished ==> self.current == self.repos@.len()
    }

    /// A bound on the steps left until `AllDone`: nine for each repository not yet
    /// done, fewer for the one in progress.
    pub open spec fn remaining(&self) -> nat {
        let per_phase: nat = match self.phase {
            Phase::Ready => 9,
            Phase::Probing => 8,
            Phase::Cloning => 7,
            Phase::Entering => 6,
            Phase::Listing => 5,
            Phase::CheckingOut => 4,
            Phase::Pulling => 3,
            Phase::Leaving => 2,
            Phase::Finished => 0,
        };
        if self.phase is Finished {
            0
        } else {
            ((self.repos@.len() - self.current) * 9 + per_phase) as nat
        }
    }

    pub open spec fn slug(&self) -> String {
        self.repos@[self.current as int].slug
    }

    /// The current repository is done: on to the next, outside any repository.
    pub open spec fn done_with(&self, post: Self) -> bool {
        &&& post.phase is Ready
        &&& post.current == self.current + 1
        &&& post.attempted == self.attempted
        &&& !post.in_repo_dir
    }

    /// The step from `self` on event `e` to `post`, with action `a`.
    pub open spec fn transition(&self, e: SyncEvent, post: Self, a: SyncAction) -> bool {
        &&& post.repos@ == self.repos@
        &&& match (self.phase, e) {
            (Phase::Ready, SyncEvent::Proceed) => if self.current < self.repos@.len() {
                &&& a == SyncAction::Probe(self.slug())
                &&& post == (Self {
                    phase: Phase::Probing,
                    attempted: (self.attempted + 1) as usize,
                    cloned: false,
                    failure: None,
                    ..*self
                })
            } else {
                &&& a is AllDone
                &&& post == (Self { phase: Phase::Finished, ..*self })
            },
            (Phase::Probing, SyncEvent::Probed(LocalState::Conflict(reason))) => {
                &&& a == SyncAction::Report(SyncOutcome::Skipped(SkipReason::Conflict(reason)))
                &&& self.done_with(post)
            },
            (Phase::Probing, SyncEvent::Probed(LocalState::PresentAsDirectory)) => {
                &&& a == SyncAction::EnterDirectory(self.slug())
                &&& post == (Self { phase: Phase::Entering, cloned: false, ..*self })
            },
            (Phase::Probing, SyncEvent::Probed(LocalState::Absent)) => {
                let links = self.repos@[self.current as int].links@;
                match a {
                    SyncAction::Clone(link) => {
                        &&& clone_link_spec(links, ssh_label(), Ok(Some(link)))
                        &&& post == (Self { phase: Phase::Cloning, ..*self })
                    },
                    SyncAction::Report(SyncOutcome::Skipped(SkipReason::NoCloneLink)) => {
                        &&& clone_link_spec(links, ssh_label(), Ok(None))
                        &&& self.done_with(post)
                    },
                    SyncAction::Report(SyncOutcome::Failed(SyncFailure::MalformedDescriptor)) => {
                        &&& !has_category(links, clone_category())
                        &&& self.done_with(post)
                    },
                    _ => false,
                }
            },
            (Phase::Cloning, SyncEvent::CloneFinished(x)) => {
                &&& a == SyncAction::EnterDirectory(self.slug())
                &&& post == (Self {
                    phase: Phase::Entering,
                    cloned: true,
                    failure: after_exit(self.failure, x, SyncFailure::Clone(x)),
                    ..*self
                })
            },
            (Phase::Entering, SyncEvent::Entered(ok)) => if ok {
                &&& a is ListRefs
                &&& post == (Self { phase: Phase::Listing, in_repo_dir: true, ..*self })
            } else {
                &&& a == SyncAction::Report(SyncOutcome::Failed(SyncFailure::EnterDirectory))
                &&& self.done_with(post)
            },
            (Phase::Listing, SyncEvent::RefsListed(x, out)) => if x is Success && out is Some {
                match latest_branch(out.unwrap()@) {
                    Some(entry) => {
                        &&& a matches SyncAction::Checkout(b) && b@ == entry.0
                        &&& post == (Self { phase: Phase::CheckingOut, ..*self })
                    },
                    None => {
                        &&& a is LeaveDirectory
                        &&& post == (Self { phase: Phase::Leaving, ..*self })
                    },
                }
            } else {
                &&& a is LeaveDirectory
                &&& post == (Self {
                    phase: Phase::Leaving,
                    failure: first_failure(
                        self.failure,
                        if x is Success {
                            SyncFailure::UndecodableRefs
                        } else {
                            SyncFailure::ListRefs(x)
                        },
                    ),
                    ..*self
                })
            },
            (Phase::CheckingOut, SyncEvent::CheckoutFinished(x)) => {
                &&& a is Pull
                &&& post == (Self {
                    phase: Phase::Pulling,
                    failure: after_exit(self.failure, x, SyncFailure::Checkout(x)),
                    ..*self
                })
            },
            (Phase::Pulling, SyncEvent::PullFinished(x)) => {
                &&& a is LeaveDirectory
                &&& post == (Self {
                    phase: Phase::Leaving,
                    failure: after_exit(self.failure, x, SyncFailure::Pull(x)),
                    ..*self
                })
            },
            (Phase::Leaving, SyncEvent::Left) => {
                &&& a == SyncAction::Report(final_outcome(*self))
                &&& self.done_with(post)
            },
            (Phase::Finished, _) => {
                &&& a is AllDone
                &&& post == *self
            },
            _ => {
                &&& a is Unexpected
                &&& post == *self
            },
        }
    }

    /// A machine for `repos`, none of them started.
    pub fn new(repos: Vec<BitBucketRepo>) -> (r: Self)
        ensures
            r.wf(),
            r.repos@ == repos@,
            r.current == 0,
            r.attempted == 0,
            r.phase is Ready,
    {
        proof {
            vstd::std_specs::vec::axiom_spec_len(&repos);
        }
        RepoSyncMachine {
            repos,
            current: 0,
            attempted: 0,
            phase: Phase::Ready,
            in_repo_dir: false,
            cloned: false,
            failure: None,
        }
    }

    /// Moves on from the current repository, back outside every repository.
    fn finish_repo(&mut self)
        requires
            old(self).wf(),
            old(self).current < old(self).repos@.len(),
            old(self).attempted == old(self).current + 1,
        ensures
            old(self).done_with(*final(self)),
            final(self).repos@ == old(self).repos@,
            final(self).wf(),
    {
        self.current = self.current + 1;
        self.phase = Phase::Ready;
        self.in_repo_dir = false;
    }

    /// Notes `f` unless an earlier failure is already noted.
    fn record_failure(&mut self, f: SyncFailure)
        ensures
            *final(self) == (Self { failure: first_failure(old(self).failure, f), ..*old(self) }),
    {
        if self.failure.is_none() {
            self.failure = Some(f);
        }
    }

    /// The outcome of the current repository, which leaves no failure behind.
    fn take_outcome(&mut self) -> (o: SyncOutcome)
        ensures
            o == final_outcome(*old(self)),
            *final(self) == (Self { failure: None, ..*old(self) }),
    {
        match self.failure.take() {
            Some(f) => SyncOutcome::Failed(f),
            None => if self.cloned {
                SyncOutcome::Cloned
            } else {
                SyncOutcome::AlreadyUpToDate
            },
        }
    }

    /// Takes the event that answers the last action, and returns the next action.
    pub fn step(&mut self, e: SyncEvent) -> (a: SyncAction)
        requires
            old(self).wf(),
        ensures
            final(self).wf(),
            old(self).transition(e, *final(self), a),
            final(self).attempted == old(self).attempted + if a is Probe { 1int } else { 0int },
            a is AllDone ==> final(self).attempted == final(self).repos@.len()
                && !final(self).in_repo_dir,
            a !is Unexpected && a !is AllDone ==> final(self).remaining() < old(self).remaining(),
    {
        match (&self.phase, e) {
            (Phase::Ready, SyncEvent::Proceed) => {
                if self.current < self.repos.len() {
                    let slug = self.repos[self.current].slug.clone();
                    self.phase = Phase::Probing;
                    self.attempted = self.attempted + 1;
                    self.cloned = false;
                    self.failure = None;
                    SyncAction::Probe(slug)
                } else {
                    self.phase = Phase::Finished;
                    SyncAction::AllDone
                }
            },
            (Phase::Probing, SyncEvent::Probed(state)) => {
                match state {
                    LocalState::Conflict(reason) => {
                        self.finish_repo();
                        SyncAction::Report(SyncOutcome::Skipped(SkipReason::Conflict(reason)))
                    },
                    LocalState::PresentAsDirectory => {
                        let slug = self.repos[self.current].slug.clone();
                        self.phase = Phase::Entering;
                        self.cloned = false;
                        SyncAction::EnterDirectory(slug)
                    },
                    LocalState::Absent => {
                        match get_clone_link_for_repo(&self.repos[self.current]) {
                            Ok(Some(link)) => {
                                self.phase = Phase::Cloning;
                                SyncAction::Clone(link)
                            },
                            Ok(None) => {
                                self.finish_repo();
                                SyncAction::Report(SyncOutcome::Skipped(SkipReason::NoCloneLink))
                            },
                            Err(_) => {
                                self.finish_repo();
                                SyncAction::Report(
                                    SyncOutcome::Failed(SyncFailure::MalformedDescriptor),
                                )
                            },
                        }
                    },
                }
            },
            (Phase::Cloning, SyncEvent::CloneFinished(x)) => {
                let slug = self.repos[self.current].slug.clone();
                self.phase = Phase::Entering;
                self.cloned = true;
                match x {
                    ExitResult::Success => {},
                    x => self.record_failure(SyncFailure::Clone(x)),
                }
                SyncAction::EnterDirectory(slug)
            },
            (Phase::Entering, SyncEvent::Entered(ok)) => {
                if ok {
                    self.phase = Phase::Listing;
                    self.in_repo_dir = true;
                    SyncAction::ListRefs
                } else {
                    self.finish_repo();
                    SyncAction::Report(SyncOutcome::Failed(SyncFailure::EnterDirectory))
                }
            },
            (Phase::Listing, SyncEvent::RefsListed(x, out)) => {
                match (x, out) {
                    (ExitResult::Success, Some(listing)) => {
                        match select_latest_branch(&listing) {
                            Some(entry) => {
                                self.phase = Phase::CheckingOut;
                                SyncAction::Checkout(entry.short_name)
                            },
                            None => {
                                self.phase = Phase::Leaving;
                                SyncAction::LeaveDirectory
                            },
                        }
                    },
                    (ExitResult::Success, None) => {
                        self.phase = Phase::Leaving;
                        self.record_failure(SyncFailure::UndecodableRefs);
                        SyncAction::LeaveDirectory
                    },
                    (x, _) => {
                        self.phase = Phase::Leaving;
                        self.record_failure(SyncFailure::ListRefs(x));
                        SyncAction::LeaveDirectory
                    },
                }
            },
            (Phase::CheckingOut, SyncEvent::CheckoutFinished(x)) => {
                self.phase = Phase::Pulling;
                match x {
                    ExitResult::Success => {},
                    x => self.record_failure(SyncFailure::Checkout(x)),
                }
                SyncAction::Pull
            },
            (Phase::Pulling, SyncEvent::PullFinished(x)) => {
                self.phase = Phase::Leaving;
                match x {
                    ExitResult::Success => {},
                    x => self.record_failure(SyncFailure::Pull(x)),
                }
                SyncAction::LeaveDirectory
            },
            (Phase::Leaving, SyncEvent::Left) => {
                let outcome = self.take_outcome();
                self.finish_repo();
                SyncAction::Report(outcome)
            },
            (Phase::Finished, _) => SyncAction::AllDone,
            _ => SyncAction::Unexpected,
        }
    }
}


/// `states[i]` steps on `events[i]` to `states[i + 1]` with action `actions[i]`.
pub open spec fn is_run(
    states: Seq<RepoSyncMachine>,
    events: Seq<SyncEvent>,
    actions: Seq<SyncAction>,
) -> bool {
    &&& states.len() == events.len() + 1
    &&& actions.len() == events.len()
    &&& forall|i: int|
        0 <= i < events.len() ==> #[trigger] states[i].transition(events[i], states[i + 1], actions[i])
}

/// How many repositories the actions start.
pub open spec fn count_probes(actions: Seq<SyncAction>) -> nat
    decreases actions.len(),
{
    if actions.len() == 0 {
        0
    } else {
        count_probes(actions.drop_last()) + if actions.last() is Probe {
            1nat
        } else {
            0nat
        }
    }
}

/// One step keeps the machine well formed and counts the repository it starts.
pub proof fn lemma_transition_wf(pre: RepoSyncMachine, e: SyncEvent, post: RepoSyncMachine, a: SyncAction)
    requires
        pre.wf(),
        pre.transition(e, post, a),
    ensures
        post.wf(),
        post.attempted == pre.attempted + if a is Probe { 1int } else { 0int },
        a is AllDone ==> post.attempted == post.repos@.len() && !post.in_repo_dir,
{
}

/// Along a run from a well-formed state with no repository begun, every state is
/// well formed, keeps the list, and has counted the repositories started so far.
proof fn lemma_run_prefix(
    states: Seq<RepoSyncMachine>,
    events: Seq<SyncEvent>,
    actions: Seq<SyncAction>,
    i: int,
)
    requires
        is_run(states, events, actions),
        states[0].wf(),
        states[0].attempted == 0,
        0 <= i <= events.len(),
    ensures
        states[i].wf(),
        states[i].repos@ == states[0].repos@,
        states[i].attempted == count_probes(actions.take(i)),
    decreases i,
{
    if i > 0 {
        lemma_run_prefix(states, events, actions, i - 1);
        assert(states[i - 1].transition(events[i - 1], states[(i - 1) + 1], actions[i - 1]));
        lemma_transition_wf(states[i - 1], events[i - 1], states[i], actions[i - 1]);
        assert(actions.take(i).drop_last() =~= actions.take(i - 1));
    } else {
        assert(actions.take(0).len() == 0);
    }
}

/// A run that starts with no repository begun and ends in `AllDone` has started
/// every repository of the list exactly once, and ends with the working directory
/// back where the run began, outside every repository.
pub proof fn lemma_run_attempts_every_repo(
    states: Seq<RepoSyncMachine>,
    events: Seq<SyncEvent>,
    actions: Seq<SyncAction>,
)
    requires
        is_run(states, events, actions),
        states[0].wf(),
        states[0].phase is Ready,
        states[0].current == 0,
        actions.len() > 0,
        actions.last() is AllDone,
    ensures
        count_probes(actions) == states[0].repos@.len(),
        !states.last().in_repo_dir,
{
    let n = events.len() as int;
    lemma_run_prefix(states, events, actions, n);
    lemma_run_prefix(states, events, actions, n - 1);
    assert(actions.take(n) =~= actions);
    assert(states[n - 1].transition(events[n - 1], states[(n - 1) + 1], actions[n - 1]));
    lemma_transition_wf(states[n - 1], events[n - 1], states[n], actions[n - 1]);
}

} // verus!
