//! What holds of analysis sessions whatever the backend answers.

use crate::artifact::ArtifactView;
use crate::error::ErrorView;
use crate::ida::call;
use crate::ida::call::{CallPhaseView, ToolCallView};
use crate::ida::manager;
use crate::ida::manager::{
    AnswerView, AskView, ClosePhaseView, CreatePhaseView, CreateStepView, CreateView,
};
use crate::ida::model::{CloseView, DatabaseView, ReverseSessionState, SaveStatus};
use crate::ida::table;
use crate::ida::table::TableView;
use crate::ida::target::TargetView;
use crate::ida::worker;
use crate::ida::worker::{OpenedView, ToolResultView};
use crate::ids::SessionId;
use vstd::prelude::*;

verus! {

/// A session is bound to the database that it names, before and after each step of its
/// creation. A new session is one that the table does not hold yet; a session whose database
/// is opened is one that it holds.
pub proof fn creation_keeps_bindings(
    t: TableView,
    phase: CreatePhaseView,
    answer: AnswerView,
    now: u64,
)
    requires
        table::bindings_agree(t),
        phase matches CreatePhaseView::Audit { session, .. } ==> session.database_id is None
            && session.state != ReverseSessionState::Closed && !t.sessions.contains_key(
            session.id.0,
        ),
        phase matches CreatePhaseView::Open { id } ==> t.sessions.contains_key(id.0)
            && t.sessions[id.0].state != ReverseSessionState::Closed,
    ensures
        table::bindings_agree(manager::create_after(t, phase, answer, now).table),
{
}

/// A session is bound to the database that it names, before and after each step of its end.
pub proof fn closing_keeps_bindings(
    t: TableView,
    id: SessionId,
    save: bool,
    phase: ClosePhaseView,
    answer: AnswerView,
    now: u64,
)
    requires
        table::bindings_agree(t),
        phase matches ClosePhaseView::SecondRefresh { previous, .. } ==> previous
            != ReverseSessionState::Closed,
        phase matches ClosePhaseView::Save { previous } ==> previous
            != ReverseSessionState::Closed,
        phase matches ClosePhaseView::Download { previous, .. } ==> previous
            != ReverseSessionState::Closed,
        phase matches ClosePhaseView::Write { previous, .. } ==> previous
            != ReverseSessionState::Closed,
    ensures
        table::bindings_agree(manager::close_begun(t, id, save, now).table),
        table::bindings_agree(manager::close_after(t, id, save, phase, answer, now).table),
{
}

/// A session is bound to the database that it names, before and after each step of a call.
pub proof fn calling_keeps_bindings(
    t: TableView,
    c: ToolCallView,
    phase: CallPhaseView,
    answer: AnswerView,
    now: u64,
)
    requires
        table::bindings_agree(t),
    ensures
        table::bindings_agree(call::call_after(t, c, phase, answer, now).table),
{
}

/// A step of the end of a session, or of a call, changes at most the session that it is about.
pub proof fn steps_leave_other_sessions_alone(
    t: TableView,
    id: SessionId,
    save: bool,
    closing: ClosePhaseView,
    c: ToolCallView,
    calling: CallPhaseView,
    answer: AnswerView,
    now: u64,
    other: u128,
)
    requires
        table::keyed(t),
        other != id.0,
        other != c.id.0,
        t.sessions.contains_key(other),
    ensures
        ({
            let after = manager::close_after(t, id, save, closing, answer, now).table;
            after.sessions.contains_key(other) && after.sessions[other] == t.sessions[other]
                && after.databases.contains_key(other) == t.databases.contains_key(other)
        }),
        ({
            let after = call::call_after(t, c, calling, answer, now).table;
            after.sessions.contains_key(other) && after.sessions[other] == t.sessions[other]
                && after.databases.contains_key(other) == t.databases.contains_key(other)
        }),
{
}

/// A session whose database could not be saved stays as open as it was, bound to its
/// database, and the request to close it fails.
pub proof fn failed_save_keeps_the_session(
    t: TableView,
    id: SessionId,
    save: bool,
    previous: ReverseSessionState,
    close: CloseView,
    now: u64,
)
    requires
        table::bindings_agree(t),
        t.sessions.contains_key(id.0),
        close.save_status == SaveStatus::Failed || close.error is Some,
    ensures
        ({
            let step = manager::close_concluded(
                t,
                id,
                save,
                previous,
                close,
                now,
                Seq::empty(),
            );
            &&& step.phase matches ClosePhaseView::Done(Err(ErrorView::Backend(_)))
            &&& step.table.sessions[id.0].state == previous
            &&& step.table.databases == t.databases
            &&& step.table.sessions[id.0].database_id == t.sessions[id.0].database_id
        }),
{
}

/// A session that was closed is bound to no database, can not be closed again, and no tool
/// can be called on it.
pub proof fn closed_sessions_stay_closed(
    t: TableView,
    id: SessionId,
    save: bool,
    c: ToolCallView,
    now: u64,
)
    requires
        table::bindings_agree(t),
        t.sessions.contains_key(id.0),
        t.sessions[id.0].state == ReverseSessionState::Closed,
        c.id == id,
        worker::allowed_tool(c.tool),
        c.arguments.get("database"@) is None,
    ensures
        !t.databases.contains_key(id.0),
        manager::close_begun(t, id, save, now) == manager::close_done(
            t,
            Err(table::is_closed(id)),
        ),
        call::call_begun(t, c) == call::call_done(t, Err(table::is_closed(id))),
{
}

/// When the end of a session succeeds, the session is closed and bound to no database.
pub proof fn success_closes_the_session(
    t: TableView,
    id: SessionId,
    save: bool,
    phase: ClosePhaseView,
    answer: AnswerView,
    now: u64,
)
    requires
        table::bindings_agree(t),
        !(phase is Done),
    ensures
        ({
            let step = manager::close_after(t, id, save, phase, answer, now);
            step.phase matches ClosePhaseView::Done(Ok(s)) ==> s.state
                == ReverseSessionState::Closed && s.id == id && step.table.sessions.contains_key(
                id.0,
            ) && step.table.sessions[id.0] == s && !step.table.databases.contains_key(id.0)
        }),
{
}

/// Only a tool that is offered is called, only with arguments that name no database of the
/// backend, only on a session that is ready, and only on the database that the session is
/// bound to.
pub proof fn only_offered_tools_are_called(
    t: TableView,
    c: ToolCallView,
    database_id: Seq<char>,
    listed: Result<Seq<DatabaseView>, ErrorView>,
    now: u64,
)
    ensures
        ({
            let step = call::call_begun(t, c);
            step.ask is CallTool || step.phase is Refresh ==> worker::allowed_tool(c.tool)
                && c.arguments.get("database"@) is None
        }),
        ({
            let step = call::call_begun(t, c);
            step.ask matches AskView::CallTool { database_id: d, tool, arguments } ==> tool == c.tool
                && arguments == c.arguments && t.sessions[c.id.0].state
                == ReverseSessionState::Ready && t.databases.contains_key(c.id.0)
                && t.databases[c.id.0] == d
        }),
        ({
            let after = table::refreshed(t, c.id.0, database_id, listed, now);
            let step = call::call_after(
                t,
                c,
                CallPhaseView::Refresh { database_id },
                AnswerView::Listed(listed),
                now,
            );
            step.ask matches AskView::CallTool { database_id: d, tool, arguments } ==> tool == c.tool
                && arguments == c.arguments && after.sessions[c.id.0].state
                == ReverseSessionState::Ready && after.databases.contains_key(c.id.0)
                && after.databases[c.id.0] == d
        }),
{
}

/// What a tool answered is written down before the call ends, and the file is among those of
/// the session; so is an error, and the call then fails with it.
pub proof fn outcomes_are_written_down(
    t: TableView,
    c: ToolCallView,
    r: Result<ToolResultView, ErrorView>,
    file: ArtifactView,
    now: u64,
)
    requires
        t.sessions.contains_key(c.id.0),
        table::keyed(t),
    ensures
        !(call::call_answered(t, c, r).phase is Done),
        r matches Err(e) ==> ({
            let asked = call::call_answered(t, c, r);
            let step = call::call_after(
                asked.table,
                c,
                asked.phase,
                AnswerView::Written(Ok(file)),
                now,
            );
            &&& asked.ask is WriteOutput
            &&& step.phase == CallPhaseView::Done(Err(e))
            &&& step.table.sessions[c.id.0].artifacts == t.sessions[c.id.0].artifacts.push(file)
        }),
{
}

/// A session whose database the backend no longer lists is in error, and stays bound.
pub proof fn lost_databases_are_errors(
    t: TableView,
    id: SessionId,
    database_id: Seq<char>,
    listed: Seq<DatabaseView>,
    now: u64,
)
    requires
        table::keyed(t),
        t.sessions.contains_key(id.0),
        forall|i: int| 0 <= i < listed.len() ==> (#[trigger] listed[i]).database_id != database_id,
    ensures
        ({
            let after = table::refreshed(t, id.0, database_id, Ok(listed), now);
            after.sessions[id.0].state == ReverseSessionState::Error && after.databases
                == t.databases
        }),
{
    not_listed(listed, database_id);
}

/// Searching a list that does not hold a database finds none.
proof fn not_listed(listed: Seq<DatabaseView>, database_id: Seq<char>)
    requires
        forall|i: int| 0 <= i < listed.len() ==> (#[trigger] listed[i]).database_id != database_id,
    ensures
        table::database_in(listed, database_id) is None,
    decreases listed.len(),
{
    if listed.len() > 0 {
        assert forall|i: int| 0 <= i < listed.drop_first().len() implies (
        #[trigger] listed.drop_first()[i]).database_id != database_id by {
            assert(listed.drop_first()[i] == listed[i + 1]);
        }
        not_listed(listed.drop_first(), database_id);
    }
}

/// Whether no two sessions that are given to others have the same target.
pub open spec fn targets_apart(t: TableView) -> bool {
    forall|j: u128, k: u128|
        #![trigger t.sessions.contains_key(j), t.sessions.contains_key(k)]
        t.sessions.contains_key(j) && t.sessions.contains_key(k) && j != k
            && t.sessions[j].state.reusable() && t.sessions[k].state.reusable()
            ==> !t.sessions[j].target.same_as(t.sessions[k].target)
}

/// Whether no session but one that is given to others has a target.
pub open spec fn target_free(t: TableView, id: u128, target: TargetView) -> bool {
    forall|k: u128| #[trigger]
        t.sessions.contains_key(k) && k != id && t.sessions[k].state.reusable()
            ==> !t.sessions[k].target.same_as(target)
}

/// A target is not opened twice: no two sessions that are given to others have the same target,
/// before and after each step of a creation. A new session is made only for a target that no
/// such session has.
pub proof fn creation_keeps_targets_apart(
    t: TableView,
    phase: CreatePhaseView,
    answer: AnswerView,
    now: u64,
)
    requires
        table::keyed(t),
        targets_apart(t),
        phase matches CreatePhaseView::Audit { session, .. } ==> !t.sessions.contains_key(
            session.id.0,
        ) && target_free(t, session.id.0, session.target),
        phase matches CreatePhaseView::Open { id } ==> t.sessions.contains_key(id.0)
            && t.sessions[id.0].state.reusable(),
    ensures
        targets_apart(manager::create_after(t, phase, answer, now).table),
{
}

/// Whether a table differs from another in at most one session, which has kept its target, and
/// which is given to others only if it was before, or if its target is free.
pub open spec fn one_differs(before: TableView, after: TableView, id: u128) -> bool {
    &&& forall|k: u128| #[trigger]
        after.sessions.contains_key(k) ==> before.sessions.contains_key(k) && (k != id
            ==> after.sessions[k] == before.sessions[k])
    &&& after.sessions.contains_key(id) ==> {
        let old_session = before.sessions[id];
        let new_session = after.sessions[id];
        &&& new_session.target == old_session.target
        &&& new_session.state.reusable() ==> old_session.state.reusable() || target_free(
            before,
            id,
            old_session.target,
        )
    }
}

/// Targets stay apart if at most one session changes in this way.
proof fn one_change_keeps_targets_apart(before: TableView, after: TableView, id: u128)
    requires
        targets_apart(before),
        one_differs(before, after, id),
    ensures
        targets_apart(after),
{
    assert forall|j: u128, k: u128|
        #![trigger after.sessions.contains_key(j), after.sessions.contains_key(k)]
        after.sessions.contains_key(j) && after.sessions.contains_key(k) && j != k
            && after.sessions[j].state.reusable()
            && after.sessions[k].state.reusable() implies !after.sessions[j].target.same_as(
        after.sessions[k].target,
    ) by {
        assert(before.sessions.contains_key(j) && before.sessions.contains_key(k));
    }
}

/// A target is not opened twice: no two sessions that are given to others have the same target,
/// before and after each step of the end of a session. A session that goes back to the state
/// that it had, because its database could not be saved, must not find its target taken.
pub proof fn closing_keeps_targets_apart(
    t: TableView,
    id: SessionId,
    save: bool,
    phase: ClosePhaseView,
    answer: AnswerView,
    now: u64,
)
    requires
        table::keyed(t),
        targets_apart(t),
        phase is FirstRefresh || (t.sessions.contains_key(id.0) ==> target_free(
            t,
            id.0,
            t.sessions[id.0].target,
        )),
    ensures
        targets_apart(manager::close_begun(t, id, save, now).table),
        targets_apart(manager::close_after(t, id, save, phase, answer, now).table),
{
    let begun = manager::close_begun(t, id, save, now).table;
    assert(one_differs(t, begun, id.0));
    one_change_keeps_targets_apart(t, begun, id.0);
    let after = manager::close_after(t, id, save, phase, answer, now).table;
    assert(one_differs(t, after, id.0));
    one_change_keeps_targets_apart(t, after, id.0);
}

/// A target is not opened twice: no two sessions that are given to others have the same target,
/// before and after each step of a call.
pub proof fn calling_keeps_targets_apart(
    t: TableView,
    c: ToolCallView,
    phase: CallPhaseView,
    answer: AnswerView,
    now: u64,
)
    requires
        table::keyed(t),
        targets_apart(t),
    ensures
        targets_apart(call::call_after(t, c, phase, answer, now).table),
{
    let after = call::call_after(t, c, phase, answer, now).table;
    assert(one_differs(t, after, c.id.0));
    one_change_keeps_targets_apart(t, after, c.id.0);
}

/// A second request for the target of a session that is given to others is answered with that
/// session, whatever else it asks for: nothing is asked of the outside, and no session is added.
pub proof fn reusable_sessions_are_shared(
    t: TableView,
    k: u128,
    request: CreateView,
    id: SessionId,
    now: u64,
    v: CreateStepView,
)
    requires
        targets_apart(t),
        manager::sharable(t, k, request.target),
        manager::create_begins(t, request, id, now, v),
    ensures
        v.phase == CreatePhaseView::Done(Ok(t.sessions[k])),
        v.ask == AskView::Nothing,
        v.record is None,
        v.table == t,
{
    let j = choose|j: u128| #[trigger]
        manager::sharable(t, j, request.target) && v == manager::create_done(t, Ok(t.sessions[j]));
    assert(t.sessions.contains_key(j) && t.sessions.contains_key(k));
}

/// Two requests for the same target, one after the other, give the same session: the first opens
/// the database, once, and adds the session; the second neither opens nor adds anything.
pub proof fn two_creations_open_once(
    t: TableView,
    first: CreateView,
    id: SessionId,
    files: (ArtifactView, ArtifactView),
    opened: OpenedView,
    listed: Result<Seq<DatabaseView>, ErrorView>,
    times: (u64, u64, u64),
    second: CreateView,
    other: SessionId,
    later: u64,
    begun: CreateStepView,
    again: CreateStepView,
)
    requires
        table::keyed(t),
        targets_apart(t),
        !t.sessions.contains_key(id.0),
        forall|k: u128| !manager::sharable(t, k, first.target),
        manager::create_begins(t, first, id, times.0, begun),
        second.target.same_as(first.target),
        manager::create_begins(
            finished(begun, files, opened, listed, times).table,
            second,
            other,
            later,
            again,
        ),
    ensures
        ({
            let audited = manager::create_after(
                t,
                begun.phase,
                AnswerView::Audited(Ok(files)),
                times.1,
            );
            let done = finished(begun, files, opened, listed, times);
            &&& begun.ask is Audit
            &&& audited.ask is Open
            &&& done.ask is Nothing
            &&& done.phase matches CreatePhaseView::Done(Ok(session)) && {
                &&& session.id == id
                &&& done.table.sessions.dom() == t.sessions.dom().insert(id.0)
                &&& session.state.reusable() ==> again == manager::create_done(
                    done.table,
                    Ok(session),
                )
            }
        }),
{
    let audited = manager::create_after(t, begun.phase, AnswerView::Audited(Ok(files)), times.1);
    let bound = manager::create_after(
        audited.table,
        audited.phase,
        AnswerView::Opened(Ok(opened)),
        times.1,
    );
    let done = finished(begun, files, opened, listed, times);
    assert(target_free(t, id.0, first.target)) by {
        assert forall|k: u128| #[trigger]
            t.sessions.contains_key(k) && k != id.0
                && t.sessions[k].state.reusable() implies !t.sessions[k].target.same_as(
            first.target,
        ) by {
            assert(!manager::sharable(t, k, first.target));
        }
    }
    creation_keeps_targets_apart(t, begun.phase, AnswerView::Audited(Ok(files)), times.1);
    creation_keeps_targets_apart(
        audited.table,
        audited.phase,
        AnswerView::Opened(Ok(opened)),
        times.1,
    );
    creation_keeps_targets_apart(bound.table, bound.phase, AnswerView::Listed(listed), times.2);
    assert(done.table.sessions.dom() =~= t.sessions.dom().insert(id.0));
    let session = done.table.sessions[id.0];
    if session.state.reusable() {
        assert(manager::sharable(done.table, id.0, second.target));
        reusable_sessions_are_shared(done.table, id.0, second, other, later, again);
    }
}

/// The end of a creation that began with a step, when the files are written, the database is
/// opened, and the backend is asked for its databases.
pub open spec fn finished(
    begun: CreateStepView,
    files: (ArtifactView, ArtifactView),
    opened: OpenedView,
    listed: Result<Seq<DatabaseView>, ErrorView>,
    times: (u64, u64, u64),
) -> CreateStepView {
    let audited = manager::create_after(
        begun.table,
        begun.phase,
        AnswerView::Audited(Ok(files)),
        times.1,
    );
    let bound = manager::create_after(
        audited.table,
        audited.phase,
        AnswerView::Opened(Ok(opened)),
        times.1,
    );
    manager::create_after(bound.table, bound.phase, AnswerView::Listed(listed), times.2)
}

} // verus!
