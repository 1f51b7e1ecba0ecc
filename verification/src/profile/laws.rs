//! What holds of every profile, whatever the outside answers.

use crate::ids::SessionId;
use crate::json::JsonView;
use crate::process::ProcessLaunchContext;
use crate::profile::model;
use crate::profile::model::{
    AnswerView, CollectorView, PhaseView, ProfileAsk, ProfilePaths, ResultView, StepView,
};
use crate::profile::request::RunProfile;
use vstd::prelude::*;

verus! {

/// An answer, and when it came.
pub struct Turn {
    pub answer: AnswerView,
    pub duration_ms: u64,
}

/// A profile after a list of answers.
pub open spec fn state_after(first: StepView, turns: Seq<Turn>) -> StepView
    decreases turns.len(),
{
    if turns.len() == 0 {
        first
    } else {
        let s = state_after(first, turns.drop_last());
        model::after(s.job, s.phase, turns.last().answer, turns.last().duration_ms)
    }
}

/// The collectors that started, in order.
pub open spec fn started_in(first: StepView, turns: Seq<Turn>) -> Seq<CollectorView>
    decreases turns.len(),
{
    if turns.len() == 0 {
        Seq::empty()
    } else {
        let s = state_after(first, turns.drop_last());
        let before = started_in(first, turns.drop_last());
        match (s.phase, turns.last().answer) {
            (PhaseView::Start { collector, .. }, AnswerView::Started(Ok(_))) => before.push(
                collector,
            ),
            _ => before,
        }
    }
}

/// The collectors that were told to stop, in order.
pub open spec fn stopped_in(first: StepView, turns: Seq<Turn>) -> Seq<CollectorView>
    decreases turns.len(),
{
    if turns.len() == 0 {
        Seq::empty()
    } else {
        let s = state_after(first, turns.drop_last());
        let before = stopped_in(first, turns.drop_last());
        match (s.phase, turns.last().answer) {
            (PhaseView::Unwind { .. }, AnswerView::Stopped(_)) => before.push(s.job.started.last()),
            (PhaseView::Stop { .. }, AnswerView::Stopped(_)) => before.push(s.job.started.last()),
            _ => before,
        }
    }
}

/// How often the target was launched.
pub open spec fn launches_in(first: StepView, turns: Seq<Turn>) -> nat
    decreases turns.len(),
{
    if turns.len() == 0 {
        0
    } else {
        let s = state_after(first, turns.drop_last());
        let before = launches_in(first, turns.drop_last());
        match (s.phase, turns.last().answer) {
            (PhaseView::Launch, AnswerView::Exited(_)) => before + 1,
            _ => before,
        }
    }
}

/// The collector that a result is about.
pub open spec fn who(result: ResultView) -> CollectorView {
    CollectorView { kind: result.kind, name: result.name }
}

/// The collectors that a list of results is about.
pub open spec fn all_who(results: Seq<ResultView>) -> Seq<CollectorView> {
    results.map_values(|r: ResultView| who(r))
}

/// Whether collectors are still being started.
pub open spec fn starting(phase: PhaseView) -> bool {
    phase is ClearStdout || phase is ClearStderr || phase is Directory || phase is Create
        || phase is Start || phase is CleanUpStart
}

/// Whether the target ran and its collectors are being stopped.
pub open spec fn stopping(phase: PhaseView) -> bool {
    phase is Stop || phase is CleanUpStop
}

/// The collectors that run and were not told to stop.
pub open spec fn untold(s: StepView) -> Seq<CollectorView> {
    if s.phase is CleanUpStop {
        s.job.started.drop_last()
    } else {
        s.job.started
    }
}

/// What holds of a profile at every point of its course.
pub open spec fn on_course(
    s: StepView,
    started: Seq<CollectorView>,
    stopped: Seq<CollectorView>,
    launches: nat,
) -> bool {
    let all = s.job.request.collectors@.len();
    &&& model::in_order(s.job, s.phase)
    &&& untold(s) + stopped.reverse() == started
    &&& started.len() == s.job.next
    &&& starting(s.phase) ==> stopped.len() == 0 && launches == 0 && s.job.results.len() == 0
    &&& s.phase is ClearStdout || s.phase is ClearStderr ==> s.job.next == 0
    &&& s.phase is Unwind ==> launches == 0
    &&& s.phase is Launch ==> launches == 0 && s.job.next == all && stopped.len() == 0
        && s.job.results.len() == 0
    &&& stopping(s.phase) ==> launches == 1 && s.job.next == all
    &&& stopping(s.phase) ==> all_who(s.job.results) == if s.phase is CleanUpStop {
        stopped.drop_last()
    } else {
        stopped
    }
    &&& s.phase is CleanUpStop ==> stopped.len() > 0 && stopped.last() == s.job.started.last()
    &&& s.phase matches PhaseView::Report { metadata, failure } ==> {
        &&& s.job.started.len() == 0
        &&& failure is Some ==> launches == 0
        &&& failure is None ==> launches == 1 && s.job.next == all && all_who(
            metadata.collector_results,
        ) == started
    }
    &&& s.phase matches PhaseView::Done(r) ==> {
        &&& s.job.started.len() == 0
        &&& launches <= 1
        &&& launches == 1 ==> s.job.next == all
        &&& r matches Ok(o) ==> launches == 1 && all_who(o.metadata.collector_results) == started
    }
}

proof fn reverse_of_push<T>(s: Seq<T>, x: T)
    ensures
        s.push(x).reverse() == seq![x] + s.reverse(),
{
    assert(s.push(x).reverse() =~= seq![x] + s.reverse());
}

proof fn told_one_more(run: Seq<CollectorView>, stopped: Seq<CollectorView>)
    requires
        run.len() > 0,
    ensures
        run.drop_last() + stopped.push(run.last()).reverse() == run + stopped.reverse(),
{
    reverse_of_push(stopped, run.last());
    assert(run.drop_last() + (seq![run.last()] + stopped.reverse()) =~= run + stopped.reverse());
}

proof fn course_goes_on(first: StepView, turns: Seq<Turn>)
    requires
        turns.len() > 0,
        on_course(
            state_after(first, turns.drop_last()),
            started_in(first, turns.drop_last()),
            stopped_in(first, turns.drop_last()),
            launches_in(first, turns.drop_last()),
        ),
    ensures
        on_course(
            state_after(first, turns),
            started_in(first, turns),
            stopped_in(first, turns),
            launches_in(first, turns),
        ),
{
    let rest = turns.drop_last();
    let s = state_after(first, rest);
    let started = started_in(first, rest);
    let stopped = stopped_in(first, rest);
    let t = state_after(first, turns);
    let answer = turns.last().answer;
    let none = Seq::<CollectorView>::empty();
    assert(none.reverse() =~= none);
    match (s.phase, answer) {
        (PhaseView::Start { collector, .. }, AnswerView::Started(Ok(_))) => {
            assert(stopped =~= none);
            assert(s.job.started + none =~= s.job.started);
            assert(t.job.started + none =~= started.push(collector));
        },
        (PhaseView::Unwind { .. }, AnswerView::Stopped(_)) => {
            told_one_more(s.job.started, stopped);
        },
        (PhaseView::Launch, AnswerView::Exited(_)) => {
            assert(stopped =~= none);
            assert(all_who(s.job.results) =~= none);
            if s.job.started.len() == 0 {
                assert(all_who(s.job.results.reverse()) =~= none);
                assert(started =~= none);
            }
        },
        (PhaseView::Stop { .. }, AnswerView::Stopped(r)) => {
            told_one_more(s.job.started, stopped);
            match r {
                Ok((artifacts, warnings)) => {
                    let result = model::completed_result(
                        s.job.started.last(),
                        artifacts,
                        warnings,
                    );
                    let results = s.job.results.push(result);
                    assert(all_who(results) =~= stopped.push(s.job.started.last()));
                    if s.job.started.len() == 1 {
                        ends_with_all(s, started, stopped.push(s.job.started.last()), results);
                    }
                },
                Err(_) => {
                    assert(stopped.push(s.job.started.last()).drop_last() =~= stopped);
                },
            }
        },
        (PhaseView::CleanUpStop { message, .. }, AnswerView::CleanedUp(_)) => {
            let results = s.job.results.push(
                model::failed_result(s.job.started.last(), message),
            );
            assert(all_who(results) =~= stopped.drop_last().push(stopped.last()));
            assert(stopped.drop_last().push(stopped.last()) =~= stopped);
            if s.job.started.len() == 1 {
                ends_with_all(s, started, stopped, results);
            }
        },
        _ => {},
    }
}

/// When the last collector is gone, the results in reverse are about those that started.
proof fn ends_with_all(
    s: StepView,
    started: Seq<CollectorView>,
    stopped: Seq<CollectorView>,
    results: Seq<ResultView>,
)
    requires
        s.job.started.len() == 1,
        s.job.started.drop_last() + stopped.reverse() == started,
        all_who(results) == stopped,
    ensures
        all_who(results.reverse()) == started,
{
    assert(s.job.started.drop_last() =~= Seq::<CollectorView>::empty());
    assert(started =~= stopped.reverse());
    assert(all_who(results.reverse()) =~= all_who(results).reverse());
}

proof fn course(
    id: SessionId,
    request: RunProfile,
    paths: ProfilePaths,
    launch: ProcessLaunchContext,
    target: JsonView,
    turns: Seq<Turn>,
)
    ensures
        ({
            let first = model::begun(id, request, paths, launch, target);
            &&& on_course(
                state_after(first, turns),
                started_in(first, turns),
                stopped_in(first, turns),
                launches_in(first, turns),
            )
            &&& state_after(first, turns).job.id == id
            &&& state_after(first, turns).job.request == request
            &&& state_after(first, turns).job.paths == paths
            &&& state_after(first, turns).job.launch == launch
            &&& state_after(first, turns).phase matches PhaseView::Done(Ok(outcome))
                ==> outcome.profile_id == id
        }),
    decreases turns.len(),
{
    let first = model::begun(id, request, paths, launch, target);
    if turns.len() > 0 {
        course(id, request, paths, launch, target, turns.drop_last());
        course_goes_on(first, turns);
    } else {
        let none = Seq::<CollectorView>::empty();
        assert(none.reverse() =~= none);
        assert(none + none =~= none);
    }
}

/// When a profile is over, each collector that started was told to stop once, the last one
/// first, whether the profile succeeded or failed.
pub proof fn started_collectors_are_stopped(
    id: SessionId,
    request: RunProfile,
    paths: ProfilePaths,
    launch: ProcessLaunchContext,
    target: JsonView,
    turns: Seq<Turn>,
)
    ensures
        ({
            let first = model::begun(id, request, paths, launch, target);
            state_after(first, turns).phase is Done ==> stopped_in(first, turns) == started_in(
                first,
                turns,
            ).reverse()
        }),
{
    course(id, request, paths, launch, target, turns);
    let first = model::begun(id, request, paths, launch, target);
    let stopped = stopped_in(first, turns);
    if state_after(first, turns).phase is Done {
        assert(started_in(first, turns) =~= stopped.reverse());
        assert(stopped.reverse().reverse() =~= stopped);
    }
}

/// The target is launched at most once, and only after all collectors started.
pub proof fn target_runs_under_all_collectors(
    id: SessionId,
    request: RunProfile,
    paths: ProfilePaths,
    launch: ProcessLaunchContext,
    target: JsonView,
    turns: Seq<Turn>,
)
    ensures
        ({
            let first = model::begun(id, request, paths, launch, target);
            &&& launches_in(first, turns) <= 1
            &&& launches_in(first, turns) == 1 ==> started_in(first, turns).len()
                == request.collectors@.len()
            &&& state_after(first, turns).phase is Launch ==> started_in(first, turns).len()
                == request.collectors@.len()
        }),
{
    course(id, request, paths, launch, target, turns);
}

/// The target is launched as the profile was told at its start, whatever happened before: in the
/// same way, for the same client, and for as long as the request allows.
pub proof fn target_is_launched_as_told(
    id: SessionId,
    request: RunProfile,
    paths: ProfilePaths,
    launch: ProcessLaunchContext,
    target: JsonView,
    turns: Seq<Turn>,
)
    ensures
        ({
            let s = state_after(model::begun(id, request, paths, launch, target), turns);
            &&& s.phase is Launch ==> model::ask(s.job, s.phase) == (ProfileAsk::Launch {
                context: launch,
                timeout_ms: request.timeout_ms,
            })
            &&& s.job.request == request
            &&& s.job.paths == paths
        }),
{
    course(id, request, paths, launch, target, turns);
}

/// A profile that succeeded has run its target and reports on all its collectors, in the order
/// in which they started.
pub proof fn success_reports_all_collectors(
    id: SessionId,
    request: RunProfile,
    paths: ProfilePaths,
    launch: ProcessLaunchContext,
    target: JsonView,
    turns: Seq<Turn>,
)
    ensures
        ({
            let first = model::begun(id, request, paths, launch, target);
            state_after(first, turns).phase matches PhaseView::Done(Ok(outcome)) ==> {
                &&& outcome.profile_id == id
                &&& launches_in(first, turns) == 1
                &&& all_who(outcome.metadata.collector_results) == started_in(first, turns)
                &&& outcome.metadata.collector_results.len() == request.collectors@.len()
            }
        }),
{
    course(id, request, paths, launch, target, turns);
    let first = model::begun(id, request, paths, launch, target);
    let s = state_after(first, turns);
    if let PhaseView::Done(Ok(outcome)) = s.phase {
        assert(all_who(outcome.metadata.collector_results).len()
            == outcome.metadata.collector_results.len());
    }
}

/// A profile that is over stays as it is.
pub proof fn over_is_over(s: StepView, turn: Turn)
    requires
        s.phase is Done,
    ensures
        model::after(s.job, s.phase, turn.answer, turn.duration_ms).job == s.job,
        model::after(s.job, s.phase, turn.answer, turn.duration_ms).phase == s.phase,
        model::ask(s.job, s.phase) == ProfileAsk::Nothing,
{
}

} // verus!
