//! What holds of every monitor, whatever its node does.

use vstd::prelude::*;
use crate::monitor::lemma_active_made_all;
use crate::monitor::lemma_stopped_stays;
use crate::monitor::MonitorView;
use crate::probe::ProbeOutcomeView;

verus! {

/// Some probe of `trace` before position `k` found the node up.
pub open spec fn life_before(trace: Seq<ProbeOutcomeView>, k: int) -> bool {
    exists|i: int| 0 <= i < k && i < trace.len() && (#[trigger] trace[i]).shows_life()
}

/// Some probe of `trace` before position `k` found the node at or above
/// `threshold`.
pub open spec fn reached_before(trace: Seq<ProbeOutcomeView>, threshold: i32, k: int) -> bool {
    exists|i: int| 0 <= i < k && i < trace.len() && (#[trigger] trace[i]).reaches(threshold)
}

/// Every failed probe of `trace` comes before the first that found the node
/// up.
pub open spec fn fails_only_before_life(trace: Seq<ProbeOutcomeView>) -> bool {
    forall|j: int|
        0 <= j < trace.len() && (#[trigger] trace[j]) is Unreachable ==> !life_before(trace, j)
}

/// The probe at position `k` of `trace` is the first that fails after the
/// node was found up.
pub open spec fn first_failure_after_life(trace: Seq<ProbeOutcomeView>, k: int) -> bool {
    &&& 0 <= k < trace.len()
    &&& trace[k] is Unreachable
    &&& life_before(trace, k)
    &&& fails_only_before_life(trace.take(k))
}

/// One probe never takes the sign of life back, and keeps the state well
/// formed.
pub proof fn lemma_step_keeps(state: MonitorView, outcome: ProbeOutcomeView)
    ensures
        state.step(outcome).threshold == state.threshold,
        state.ever_seen_alive ==> state.step(outcome).ever_seen_alive,
        state.wf() ==> state.step(outcome).wf(),
        !state.active() ==> state.step(outcome) == state,
{
}

/// No sequence of probes takes the sign of life back, changes the threshold
/// or breaks well-formedness: in particular a monitor that started well
/// formed reports completion only of a node that it has seen alive.
pub proof fn lemma_run_keeps(start: MonitorView, trace: Seq<ProbeOutcomeView>)
    ensures
        start.run(trace).threshold == start.threshold,
        start.ever_seen_alive ==> start.run(trace).ever_seen_alive,
        start.wf() ==> start.run(trace).wf(),
        start.wf() && start.run(trace).phase is Done ==> start.run(trace).ever_seen_alive,
    decreases trace.len(),
{
    if trace.len() > 0 {
        lemma_run_keeps(start, trace.drop_last());
        lemma_step_keeps(start.run(trace.drop_last()), trace.last());
    }
}

/// A fresh monitor has seen its node alive only if some probe found it up;
/// and while the monitor is active, it has seen the node alive as soon as
/// some probe found it up. It is done only if some probe found the node at
/// or above the threshold.
pub proof fn lemma_alive_means_life(threshold: i32, trace: Seq<ProbeOutcomeView>)
    ensures
        MonitorView::initial(threshold).run(trace).ever_seen_alive ==> life_before(
            trace,
            trace.len() as int,
        ),
        MonitorView::initial(threshold).run(trace).active() && life_before(
            trace,
            trace.len() as int,
        ) ==> MonitorView::initial(threshold).run(trace).ever_seen_alive,
        MonitorView::initial(threshold).run(trace).phase is Done ==> reached_before(
            trace,
            threshold,
            trace.len() as int,
        ),
    decreases trace.len(),
{
    let start = MonitorView::initial(threshold);
    if trace.len() > 0 {
        let before = trace.drop_last();
        let last = trace.len() - 1;
        lemma_alive_means_life(threshold, before);
        lemma_run_keeps(start, before);
        assert(forall|i: int| 0 <= i < before.len() ==> before[i] == trace[i]);
        if life_before(before, before.len() as int) {
            let i = choose|i: int|
                0 <= i < before.len() && i < before.len() && (#[trigger] before[i]).shows_life();
            assert(trace[i].shows_life());
        }
        if reached_before(before, threshold, before.len() as int) {
            let i = choose|i: int|
                0 <= i < before.len() && i < before.len() && (#[trigger] before[i]).reaches(
                    threshold,
                );
            assert(trace[i].reaches(threshold));
        }
        if start.run(trace).ever_seen_alive && !start.run(before).ever_seen_alive {
            assert(trace[last].shows_life());
        }
        if start.run(trace).phase is Done && !(start.run(before).phase is Done) {
            assert(trace[last].reaches(threshold));
        }
        if start.run(trace).active() && life_before(trace, trace.len() as int) {
            let i = choose|i: int|
                0 <= i < trace.len() && i < trace.len() && (#[trigger] trace[i]).shows_life();
            if i < last {
                assert(before[i].shows_life());
            }
        }
    }
}

/// While every failed probe comes before the first sign of life, a fresh
/// monitor never aborts, however long the sequence; and while no probe finds
/// the node at the threshold either, the monitor goes on probing: it is
/// active after the whole sequence and has made every probe of it.
pub proof fn lemma_patient_before_life(threshold: i32, trace: Seq<ProbeOutcomeView>)
    requires
        fails_only_before_life(trace),
    ensures
        !(MonitorView::initial(threshold).run(trace).phase is Fatal),
        forall|k: int|
            0 <= k <= trace.len() ==> !((#[trigger] MonitorView::initial(threshold).run(
                trace.take(k),
            )).phase is Fatal),
        !reached_before(trace, threshold, trace.len() as int) ==> {
            &&& MonitorView::initial(threshold).run(trace).active()
            &&& MonitorView::initial(threshold).probes_made(trace) == trace.len()
        },
{
    let start = MonitorView::initial(threshold);
    assert forall|k: int| 0 <= k <= trace.len() implies !((#[trigger] start.run(
        trace.take(k),
    )).phase is Fatal) by {
        lemma_prefix_patient(trace, k);
        lemma_never_fatal(threshold, trace.take(k));
    }
    assert(trace.take(trace.len() as int) =~= trace);
    if !reached_before(trace, threshold, trace.len() as int) {
        lemma_alive_means_life(threshold, trace);
        lemma_active_made_all(start, trace, trace.len() as int);
    }
}

/// A prefix of a sequence whose failures all come before the first sign of
/// life is such a sequence too.
proof fn lemma_prefix_patient(trace: Seq<ProbeOutcomeView>, k: int)
    requires
        fails_only_before_life(trace),
        0 <= k <= trace.len(),
    ensures
        fails_only_before_life(trace.take(k)),
{
    let prefix = trace.take(k);
    assert forall|j: int| 0 <= j < prefix.len() && (#[trigger] prefix[j]) is Unreachable implies
        !life_before(prefix, j) by {
        assert(trace[j] is Unreachable);
        if life_before(prefix, j) {
            let i = choose|i: int|
                0 <= i < j && i < prefix.len() && (#[trigger] prefix[i]).shows_life();
            assert(trace[i].shows_life());
        }
    }
}

proof fn lemma_never_fatal(threshold: i32, trace: Seq<ProbeOutcomeView>)
    requires
        fails_only_before_life(trace),
    ensures
        !(MonitorView::initial(threshold).run(trace).phase is Fatal),
    decreases trace.len(),
{
    let start = MonitorView::initial(threshold);
    if trace.len() > 0 {
        let before = trace.drop_last();
        let last = trace.len() - 1;
        assert(before =~= trace.take(last));
        lemma_prefix_patient(trace, last);
        lemma_never_fatal(threshold, before);
        lemma_alive_means_life(threshold, before);
        if trace[last] is Unreachable && start.run(before).ever_seen_alive {
            let i = choose|i: int|
                0 <= i < before.len() && i < before.len() && (#[trigger] before[i]).shows_life();
            assert(trace[i].shows_life());
            assert(life_before(trace, last));
        }
    }
}

/// Where the probe at position `k` is the first that fails after a sign of
/// life, and no probe before it found the node at the threshold, a fresh
/// monitor is still active before that probe, aborts on it, and makes no
/// probe after it.
pub proof fn lemma_abort_on_failure_after_life(
    threshold: i32,
    trace: Seq<ProbeOutcomeView>,
    k: int,
)
    requires
        first_failure_after_life(trace, k),
        !reached_before(trace, threshold, k),
    ensures
        MonitorView::initial(threshold).run(trace.take(k)).active(),
        MonitorView::initial(threshold).run(trace.take(k + 1)).phase is Fatal,
        MonitorView::initial(threshold).run(trace).phase is Fatal,
        MonitorView::initial(threshold).probes_made(trace) == k + 1,
{
    let start = MonitorView::initial(threshold);
    let before = trace.take(k);
    let upto = trace.take(k + 1);
    lemma_never_fatal(threshold, before);
    lemma_alive_means_life(threshold, before);
    if reached_before(before, threshold, before.len() as int) {
        let i = choose|i: int|
            0 <= i < before.len() && i < before.len() && (#[trigger] before[i]).reaches(threshold);
        assert(trace[i].reaches(threshold));
    }
    assert(start.run(before).active());
    let i = choose|i: int| 0 <= i < k && i < trace.len() && (#[trigger] trace[i]).shows_life();
    assert(before[i].shows_life());
    assert(start.run(before).ever_seen_alive);
    assert(upto.drop_last() =~= before);
    assert(upto.last() == trace[k]);
    assert(start.run(upto).phase is Fatal);
    lemma_active_made_all(start, trace, k);
    assert(start.probes_made(upto) == k + 1);
    lemma_stopped_stays(start, trace, k + 1);
}

/// A level below the threshold, reported again, changes nothing further: it
/// never completes the run, and never takes the sign of life back.
pub proof fn lemma_low_level_repeats(state: MonitorView, level: i32)
    requires
        level < state.threshold,
    ensures
        state.step(ProbeOutcomeView::Progress(level)).step(ProbeOutcomeView::Progress(level))
            == state.step(ProbeOutcomeView::Progress(level)),
        state.active() ==> state.step(ProbeOutcomeView::Progress(level)) == (MonitorView {
            threshold: state.threshold,
            ever_seen_alive: true,
            phase: crate::monitor::Phase::Bootstrapping,
        }),
        !(state.phase is Done) ==> !(state.step(ProbeOutcomeView::Progress(level)).phase is Done),
        state.ever_seen_alive ==> state.step(ProbeOutcomeView::Progress(level)).ever_seen_alive,
{
}

/// The outcome is a level below `threshold`.
pub open spec fn is_low_level(outcome: ProbeOutcomeView, threshold: i32) -> bool {
    outcome matches ProbeOutcomeView::Progress(level) && level < threshold
}

/// However many levels below the threshold an active monitor is shown, it
/// goes on bootstrapping: it makes every probe, never completes, and holds
/// its sign of life.
pub proof fn lemma_low_levels_never_complete(start: MonitorView, trace: Seq<ProbeOutcomeView>)
    requires
        start.active(),
        forall|i: int| 0 <= i < trace.len() ==> is_low_level(#[trigger] trace[i], start.threshold),
    ensures
        trace.len() > 0 ==> start.run(trace) == (MonitorView {
            threshold: start.threshold,
            ever_seen_alive: true,
            phase: crate::monitor::Phase::Bootstrapping,
        }),
        start.run(trace).active(),
        start.probes_made(trace) == trace.len(),
        start.ever_seen_alive ==> start.run(trace).ever_seen_alive,
    decreases trace.len(),
{
    if trace.len() > 0 {
        let before = trace.drop_last();
        lemma_low_levels_never_complete(start, before);
        assert(is_low_level(trace[trace.len() - 1], start.threshold));
    }
}

/// An active monitor completes on a level equal to its threshold, and does
/// not on the level just below it.
pub proof fn lemma_threshold_is_inclusive(state: MonitorView, level: i32)
    requires
        state.active(),
    ensures
        level == state.threshold ==> state.step(ProbeOutcomeView::Progress(level)).phase is Done,
        level == state.threshold - 1 ==> state.step(
            ProbeOutcomeView::Progress(level),
        ).phase is Bootstrapping,
        state.step(ProbeOutcomeView::Progress(level)).phase is Done <==> level >= state.threshold,
{
}

} // verus!
