//! The monitor of one node: a state machine driven by probe outcomes.

use vstd::prelude::*;
use crate::probe::classify;
use crate::probe::MalformedLevel;
use crate::probe::ProbeOutcome;
use crate::probe::ProbeOutcomeView;
use crate::probe::Reply;
use crate::probe::report_view;
use crate::probe::views;

verus! {

/// Seconds to wait between two probes of the same node.
pub const BACKOFF_SECS: u64 = 10;

/// Where a monitor stands.
#[derive(Debug, Clone, Copy, PartialEq, Eq, Structural)]
pub enum Phase {
    /// No level below the threshold has been seen yet.
    Waiting,
    /// The node reported a level below the threshold.
    Bootstrapping,
    /// The node reached the threshold. Terminal.
    Done,
    /// The node was up and then became unreachable, or published a level
    /// that is no number. Terminal.
    Fatal,
}

/// What the caller has to do after a probe.
#[derive(Debug, Clone, PartialEq, Eq)]
pub enum Action {
    /// The node has never answered: note the cause, wait, probe again.
    AwaitNode { cause: String },
    /// The node answers but reports no level: wait, probe again.
    AwaitStart,
    /// The node reports `level`, below the threshold: wait, probe again.
    AwaitLevel { level: i32 },
    /// The node reports `level`, at or above the threshold: stop probing and
    /// report the time it took.
    Finish { level: i32 },
    /// The node had answered before and is unreachable now: stop probing and
    /// abort the whole run.
    Abort { cause: String },
    /// The node published `field` where its level belongs, and that is no
    /// number: stop probing and abort the whole run.
    Reject { field: String },
}

/// An `Action` as contracts see it.
pub enum ActionView {
    AwaitNode { cause: Seq<char> },
    AwaitStart,
    AwaitLevel { level: i32 },
    Finish { level: i32 },
    Abort { cause: Seq<char> },
    Reject { field: Seq<char> },
}

impl View for Action {
    type V = ActionView;

    open spec fn view(&self) -> ActionView {
        match self {
            Action::AwaitNode { cause } => ActionView::AwaitNode { cause: cause@ },
            Action::AwaitStart => ActionView::AwaitStart,
            Action::AwaitLevel { level } => ActionView::AwaitLevel { level: *level },
            Action::Finish { level } => ActionView::Finish { level: *level },
            Action::Abort { cause } => ActionView::Abort { cause: cause@ },
            Action::Reject { field } => ActionView::Reject { field: field@ },
        }
    }
}

/// The view of an action that may be missing.
pub open spec fn action_view(action: Option<Action>) -> Option<ActionView> {
    match action {
        Some(action) => Some(action@),
        None => None,
    }
}

impl ActionView {
    /// The action ends the monitor's run.
    pub open spec fn is_final(self) -> bool {
        self is Finish || self is Abort || self is Reject
    }
}

impl Action {
    /// How long to sleep before the next probe, in seconds; `None` where the
    /// action ends the run.
    pub fn backoff_secs(&self) -> (secs: Option<u64>)
        ensures
            secs == if self@.is_final() { None } else { Some(BACKOFF_SECS) },
    {
        match self {
            Action::AwaitNode { .. } | Action::AwaitStart | Action::AwaitLevel { .. } => Some(
                BACKOFF_SECS,
            ),
            Action::Finish { .. } | Action::Abort { .. } | Action::Reject { .. } => None,
        }
    }
}

/// The state of a monitor, as contracts see it.
pub struct MonitorView {
    /// The level at which the node counts as bootstrapped.
    pub threshold: i32,
    /// Some probe has found the node up.
    pub ever_seen_alive: bool,
    pub phase: Phase,
}

impl MonitorView {
    /// A monitor before its first probe.
    pub open spec fn initial(threshold: i32) -> MonitorView {
        MonitorView { threshold, ever_seen_alive: false, phase: Phase::Waiting }
    }

    /// The monitor still probes.
    pub open spec fn active(self) -> bool {
        self.phase is Waiting || self.phase is Bootstrapping
    }

    /// A level below the threshold, and completion, are only ever recorded of
    /// a node that has been seen alive.
    pub open spec fn wf(self) -> bool {
        (self.phase is Bootstrapping || self.phase is Done) ==> self.ever_seen_alive
    }

    /// The state after one more probe. A monitor that has stopped stays as it
    /// is.
    pub open spec fn step(self, outcome: ProbeOutcomeView) -> MonitorView {
        if !self.active() {
            self
        } else {
            match outcome {
                ProbeOutcomeView::Progress(level) => MonitorView {
                    threshold: self.threshold,
                    ever_seen_alive: true,
                    phase: if level >= self.threshold {
                        Phase::Done
                    } else {
                        Phase::Bootstrapping
                    },
                },
                ProbeOutcomeView::NotStarted => MonitorView {
                    threshold: self.threshold,
                    ever_seen_alive: true,
                    phase: self.phase,
                },
                ProbeOutcomeView::Unreachable(_) => if self.ever_seen_alive {
                    MonitorView {
                        threshold: self.threshold,
                        ever_seen_alive: true,
                        phase: Phase::Fatal,
                    }
                } else {
                    self
                },
            }
        }
    }

    /// What an active monitor asks of its caller after a probe.
    pub open spec fn action(self, outcome: ProbeOutcomeView) -> ActionView {
        match outcome {
            ProbeOutcomeView::Progress(level) => if level >= self.threshold {
                ActionView::Finish { level }
            } else {
                ActionView::AwaitLevel { level }
            },
            ProbeOutcomeView::NotStarted => ActionView::AwaitStart,
            ProbeOutcomeView::Unreachable(cause) => if self.ever_seen_alive {
                ActionView::Abort { cause }
            } else {
                ActionView::AwaitNode { cause }
            },
        }
    }

    /// The state after a probe that reported `report`: an outcome is taken in,
    /// a defect ends the run.
    pub open spec fn digest(self, report: Result<ProbeOutcomeView, Seq<char>>) -> MonitorView {
        match report {
            Ok(outcome) => self.step(outcome),
            Err(_) => if self.active() {
                MonitorView {
                    threshold: self.threshold,
                    ever_seen_alive: self.ever_seen_alive,
                    phase: Phase::Fatal,
                }
            } else {
                self
            },
        }
    }

    /// What an active monitor asks of its caller after a probe that reported
    /// `report`.
    pub open spec fn digest_action(self, report: Result<ProbeOutcomeView, Seq<char>>) -> ActionView {
        match report {
            Ok(outcome) => self.action(outcome),
            Err(field) => ActionView::Reject { field },
        }
    }

    /// The state after the probes of `trace`, taken in order.
    pub open spec fn run(self, trace: Seq<ProbeOutcomeView>) -> MonitorView
        decreases trace.len(),
    {
        if trace.len() == 0 {
            self
        } else {
            self.run(trace.drop_last()).step(trace.last())
        }
    }

    /// How many probes of `trace` the monitor makes before it stops: all of
    /// them while it stays active.
    pub open spec fn probes_made(self, trace: Seq<ProbeOutcomeView>) -> nat
        decreases trace.len(),
    {
        if trace.len() == 0 {
            0
        } else {
            let before = trace.drop_last();
            if self.run(before).active() {
                self.probes_made(before) + 1
            } else {
                self.probes_made(before)
            }
        }
    }

    /// What the monitor asks after the last probe that it makes of `trace`;
    /// `None` where it makes none.
    pub open spec fn last_action(self, trace: Seq<ProbeOutcomeView>) -> Option<ActionView> {
        let made = self.probes_made(trace);
        if made == 0 {
            None
        } else {
            Some(self.run(trace.take(made - 1)).action(trace[made - 1]))
        }
    }
}

/// A monitor that has stopped after the first `k` probes of `trace` makes
/// nothing of the rest.
pub proof fn lemma_stopped_stays(start: MonitorView, trace: Seq<ProbeOutcomeView>, k: int)
    requires
        0 <= k <= trace.len(),
        !start.run(trace.take(k)).active(),
    ensures
        start.run(trace) == start.run(trace.take(k)),
        start.probes_made(trace) == start.probes_made(trace.take(k)),
    decreases trace.len(),
{
    if k == trace.len() {
        assert(trace.take(k) =~= trace);
    } else {
        let before = trace.drop_last();
        assert(before.take(k) =~= trace.take(k));
        lemma_stopped_stays(start, before, k);
    }
}

/// A monitor that is active after the first `k` probes of `trace` has made
/// every one of them.
pub proof fn lemma_active_made_all(start: MonitorView, trace: Seq<ProbeOutcomeView>, k: int)
    requires
        0 <= k <= trace.len(),
        start.run(trace.take(k)).active(),
    ensures
        start.probes_made(trace.take(k)) == k,
        forall|j: int| 0 <= j <= k ==> (#[trigger] start.run(trace.take(j))).active(),
    decreases k,
{
    let upto = trace.take(k);
    if k > 0 {
        assert(upto.drop_last() =~= trace.take(k - 1));
        assert(upto.last() == trace[k - 1]);
        lemma_active_made_all(start, trace, k - 1);
    }
}

/// The monitor of one node.
#[derive(Debug, Clone, Copy, PartialEq, Eq)]
pub struct NodeMonitor {
    threshold: i32,
    ever_seen_alive: bool,
    phase: Phase,
}

impl View for NodeMonitor {
    type V = MonitorView;

    closed spec fn view(&self) -> MonitorView {
        MonitorView {
            threshold: self.threshold,
            ever_seen_alive: self.ever_seen_alive,
            phase: self.phase,
        }
    }
}

impl NodeMonitor {
    #[verifier::type_invariant]
    spec fn inv(self) -> bool {
        self@.wf()
    }

    /// A monitor that waits for its node to reach `threshold`.
    pub fn new(threshold: i32) -> (monitor: NodeMonitor)
        ensures
            monitor@ == MonitorView::initial(threshold),
    {
        NodeMonitor { threshold, ever_seen_alive: false, phase: Phase::Waiting }
    }

    /// The level that the node is to reach.
    pub fn threshold(&self) -> (threshold: i32)
        ensures
            threshold == self@.threshold,
    {
        self.threshold
    }

    /// Some probe has found the node up.
    pub fn ever_seen_alive(&self) -> (alive: bool)
        ensures
            alive == self@.ever_seen_alive,
    {
        self.ever_seen_alive
    }

    /// Where the monitor stands.
    pub fn phase(&self) -> (phase: Phase)
        ensures
            phase == self@.phase,
            self@.wf(),
    {
        proof {
            use_type_invariant(self);
        }
        self.phase
    }

    /// The monitor still probes: it has neither finished nor aborted.
    pub fn is_active(&self) -> (active: bool)
        ensures
            active == self@.active(),
    {
        match self.phase {
            Phase::Waiting | Phase::Bootstrapping => true,
            Phase::Done | Phase::Fatal => false,
        }
    }

    /// Takes in the outcome of one probe and says what to do next.
    pub fn observe(&mut self, outcome: &ProbeOutcome) -> (action: Action)
        requires
            old(self)@.active(),
        ensures
            final(self)@ == old(self)@.step(outcome@),
            action@ == old(self)@.action(outcome@),
            final(self)@.wf(),
    {
        proof {
            use_type_invariant(&*self);
        }
        match outcome {
            ProbeOutcome::Progress(level) => {
                let level: i32 = *level;
                if level >= self.threshold {
                    *self = NodeMonitor {
                        threshold: self.threshold,
                        ever_seen_alive: true,
                        phase: Phase::Done,
                    };
                    Action::Finish { level }
                } else {
                    *self = NodeMonitor {
                        threshold: self.threshold,
                        ever_seen_alive: true,
                        phase: Phase::Bootstrapping,
                    };
                    Action::AwaitLevel { level }
                }
            },
            ProbeOutcome::NotStarted => {
                *self = NodeMonitor {
                    threshold: self.threshold,
                    ever_seen_alive: true,
                    phase: self.phase,
                };
                Action::AwaitStart
            },
            ProbeOutcome::Unreachable(cause) => {
                if self.ever_seen_alive {
                    *self = NodeMonitor {
                        threshold: self.threshold,
                        ever_seen_alive: true,
                        phase: Phase::Fatal,
                    };
                    Action::Abort { cause: cause.clone() }
                } else {
                    Action::AwaitNode { cause: cause.clone() }
                }
            },
        }
    }

    /// Runs the monitor over recorded outcomes, in order, until it stops or
    /// they are used up. Returns how many of them it took in, and what it
    /// asked after the last of these.
    pub fn replay(&mut self, outcomes: &Vec<ProbeOutcome>) -> (made: (usize, Option<Action>))
        ensures
            final(self)@ == old(self)@.run(views(outcomes@)),
            made.0 == old(self)@.probes_made(views(outcomes@)),
            action_view(made.1) == old(self)@.last_action(views(outcomes@)),
            final(self)@.wf(),
    {
        proof {
            use_type_invariant(&*self);
        }
        let ghost start = self@;
        let ghost trace = views(outcomes@);
        let mut last: Option<Action> = None;
        let mut i: usize = 0;
        assert(trace.take(0) =~= Seq::<ProbeOutcomeView>::empty());
        while i < outcomes.len() && self.is_active()
            invariant
                start == old(self)@,
                trace == views(outcomes@),
                i <= outcomes.len(),
                self@ == start.run(trace.take(i as int)),
                self@.wf(),
                start.probes_made(trace.take(i as int)) == i,
                action_view(last) == start.last_action(trace.take(i as int)),
            decreases outcomes.len() - i,
        {
            let action = self.observe(&outcomes[i]);
            proof {
                let upto = trace.take(i + 1);
                assert(upto.drop_last() =~= trace.take(i as int));
                assert(upto.last() == outcomes@[i as int]@);
                assert(upto.take(i as int) =~= trace.take(i as int));
            }
            last = Some(action);
            i += 1;
        }
        proof {
            if i == outcomes.len() {
                assert(trace.take(i as int) =~= trace);
            } else {
                lemma_stopped_stays(start, trace, i as int);
                let made = start.probes_made(trace);
                if made > 0 {
                    assert(trace.take(i as int).take(made - 1) =~= trace.take(made - 1));
                }
            }
        }
        (i, last)
    }

    /// Takes in what one probe reported and says what to do next.
    pub fn digest(&mut self, report: Result<ProbeOutcome, MalformedLevel>) -> (action: Action)
        requires
            old(self)@.active(),
        ensures
            final(self)@ == old(self)@.digest(report_view(report)),
            action@ == old(self)@.digest_action(report_view(report)),
            final(self)@.wf(),
    {
        proof {
            use_type_invariant(&*self);
        }
        match report {
            Ok(outcome) => self.observe(&outcome),
            Err(defect) => {
                *self = NodeMonitor {
                    threshold: self.threshold,
                    ever_seen_alive: self.ever_seen_alive,
                    phase: Phase::Fatal,
                };
                Action::Reject { field: defect.field }
            },
        }
    }

    /// Takes in the reply to one request and says what to do next.
    pub fn on_reply(&mut self, reply: Reply) -> (action: Action)
        requires
            old(self)@.active(),
        ensures
            final(self)@ == old(self)@.digest(reply@.report()),
            action@ == old(self)@.digest_action(reply@.report()),
            final(self)@.wf(),
    {
        let report = classify(reply);
        self.digest(report)
    }
}

} // verus!
