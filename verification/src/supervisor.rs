//! Many nodes at once: one monitor for each, and what their runs add up to.
//!
//! The monitors share nothing. Each runs to its own end; the run as a whole
//! succeeds when all of them finish, and fails with the first, in the order
//! of the nodes, that gave up.

use vstd::prelude::*;
use crate::monitor::Action;
use crate::monitor::ActionView;
use crate::monitor::MonitorView;
use crate::monitor::NodeMonitor;
use crate::probe::status_url;
use crate::probe::STATUS_PATH;

verus! {

pub const NANOS_PER_SEC: u128 = 1_000_000_000;

/// A node to watch, and the level that it is to reach.
#[derive(Debug, Clone, PartialEq, Eq)]
pub struct NodeTarget {
    /// The node's address, as a URL that ends in `/`.
    pub endpoint: String,
    pub threshold: i32,
}

/// A `NodeTarget` as contracts see it.
pub struct NodeTargetView {
    pub endpoint: Seq<char>,
    pub threshold: i32,
}

impl View for NodeTarget {
    type V = NodeTargetView;

    open spec fn view(&self) -> NodeTargetView {
        NodeTargetView { endpoint: self.endpoint@, threshold: self.threshold }
    }
}

impl NodeTarget {
    /// A monitor for this node, before its first probe.
    pub fn monitor(&self) -> (monitor: NodeMonitor)
        ensures
            monitor@ == MonitorView::initial(self@.threshold),
    {
        NodeMonitor::new(self.threshold)
    }

    /// The address to probe.
    pub fn status_url(&self) -> (url: String)
        ensures
            url@ == self@.endpoint + STATUS_PATH@,
    {
        status_url(self.endpoint.as_str())
    }
}

/// A node reached its threshold; `elapsed_nanos` is the time from the start
/// of its monitor to the probe that showed it.
#[derive(Debug, Clone, PartialEq, Eq)]
pub struct MonitorResult {
    pub node: String,
    pub elapsed_nanos: u128,
}

/// A `MonitorResult` as contracts see it.
pub struct MonitorResultView {
    pub node: Seq<char>,
    pub elapsed_nanos: u128,
}

impl View for MonitorResult {
    type V = MonitorResultView;

    open spec fn view(&self) -> MonitorResultView {
        MonitorResultView { node: self.node@, elapsed_nanos: self.elapsed_nanos }
    }
}

impl MonitorResult {
    /// The whole seconds of the elapsed time.
    pub fn elapsed_secs(&self) -> (secs: u128)
        ensures
            secs == self@.elapsed_nanos / NANOS_PER_SEC,
    {
        self.elapsed_nanos / NANOS_PER_SEC
    }

    /// What the elapsed time holds beyond its whole seconds, in nanoseconds.
    pub fn elapsed_subsec_nanos(&self) -> (nanos: u32)
        ensures
            nanos == self@.elapsed_nanos % NANOS_PER_SEC,
            self@.elapsed_nanos == self@.elapsed_nanos / NANOS_PER_SEC * NANOS_PER_SEC + nanos,
    {
        (self.elapsed_nanos % NANOS_PER_SEC) as u32
    }
}

/// A monitor gave its run up.
#[derive(Debug, Clone, PartialEq, Eq)]
pub enum MonitorFailure {
    /// The node had answered before and then became unreachable.
    NodeExited { node: String, cause: String },
    /// The node published `field` where its level belongs.
    MalformedLevel { node: String, field: String },
}

/// A `MonitorFailure` as contracts see it.
pub enum MonitorFailureView {
    NodeExited { node: Seq<char>, cause: Seq<char> },
    MalformedLevel { node: Seq<char>, field: Seq<char> },
}

impl View for MonitorFailure {
    type V = MonitorFailureView;

    open spec fn view(&self) -> MonitorFailureView {
        match self {
            MonitorFailure::NodeExited { node, cause } => MonitorFailureView::NodeExited {
                node: node@,
                cause: cause@,
            },
            MonitorFailure::MalformedLevel { node, field } => MonitorFailureView::MalformedLevel {
                node: node@,
                field: field@,
            },
        }
    }
}

/// How one monitor's run ended, as contracts see it.
pub open spec fn verdict_view(verdict: Result<MonitorResult, MonitorFailure>) -> Result<
    MonitorResultView,
    MonitorFailureView,
> {
    match verdict {
        Ok(result) => Ok(result@),
        Err(failure) => Err(failure@),
    }
}

/// What the action that a monitor asked last means for the run of `node`,
/// `elapsed_nanos` after the monitor started: nothing yet where the monitor
/// goes on, a result where it finished, a failure where it gave up.
pub open spec fn conclusion(node: Seq<char>, action: ActionView, elapsed_nanos: u128) -> Option<
    Result<MonitorResultView, MonitorFailureView>,
> {
    match action {
        ActionView::Finish { level } => Some(Ok(MonitorResultView { node, elapsed_nanos })),
        ActionView::Abort { cause } => Some(Err(MonitorFailureView::NodeExited { node, cause })),
        ActionView::Reject { field } => Some(
            Err(MonitorFailureView::MalformedLevel { node, field }),
        ),
        _ => None,
    }
}

/// Turns the action that a monitor asked last into the end of its run, if
/// it is one.
pub fn conclude(node: String, action: Action, elapsed_nanos: u128) -> (verdict: Option<
    Result<MonitorResult, MonitorFailure>,
>)
    ensures
        match verdict {
            Some(verdict) => conclusion(node@, action@, elapsed_nanos) == Some(
                verdict_view(verdict),
            ),
            None => conclusion(node@, action@, elapsed_nanos) is None,
        },
{
    match action {
        Action::Finish { level } => Some(Ok(MonitorResult { node, elapsed_nanos })),
        Action::Abort { cause } => Some(Err(MonitorFailure::NodeExited { node, cause })),
        Action::Reject { field } => Some(Err(MonitorFailure::MalformedLevel { node, field })),
        _ => None,
    }
}

/// The verdict at position `k` is the first failure among `verdicts`.
pub open spec fn first_failure_at(
    verdicts: Seq<Result<MonitorResult, MonitorFailure>>,
    k: int,
) -> bool {
    &&& 0 <= k < verdicts.len()
    &&& verdicts[k] is Err
    &&& forall|j: int| 0 <= j < k ==> (#[trigger] verdicts[j]) is Ok
}

/// Gathers the ends of all the runs: every result, in the order of the
/// verdicts and untouched, where all monitors finished; else the first
/// failure.
pub fn collect(verdicts: Vec<Result<MonitorResult, MonitorFailure>>) -> (run: Result<
    Vec<MonitorResult>,
    MonitorFailure,
>)
    ensures
        match run {
            Ok(results) => {
                &&& results.len() == verdicts.len()
                &&& forall|i: int|
                    0 <= i < verdicts.len() ==> verdict_view(#[trigger] verdicts[i]) == Ok::<
                        MonitorResultView,
                        MonitorFailureView,
                    >(results[i]@)
            },
            Err(failure) => exists|k: int|
                first_failure_at(verdicts@, k) && verdict_view(#[trigger] verdicts[k]) == Err::<
                    MonitorResultView,
                    MonitorFailureView,
                >(failure@),
        },
{
    let mut results: Vec<MonitorResult> = Vec::new();
    for verdict in it: verdicts
        invariant
            it.seq() == verdicts@,
            results.len() == it.index(),
            forall|i: int|
                0 <= i < it.index() ==> verdict_view(#[trigger] verdicts[i]) == Ok::<
                    MonitorResultView,
                    MonitorFailureView,
                >(results[i]@),
    {
        match verdict {
            Ok(result) => {
                results.push(result);
            },
            Err(failure) => {
                proof {
                    let k = it.index();
                    assert(verdicts[k] is Err);
                    assert(first_failure_at(verdicts@, k));
                }
                return Err(failure);
            },
        }
    }
    Ok(results)
}

} // verus!
