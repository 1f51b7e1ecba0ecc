//! Laws of the table of sessions.

use crate::artifact::ArtifactRef;
use crate::error::{DbgFlowError, ErrorView};
use crate::ida::model::{CloseDatabaseResult, ReverseSession, ReverseSessionState};
use crate::ida::table;
use crate::ida::table::{make_session, IdaSessions};
use crate::ida::target::IdaTarget;
use crate::ida::worker::OpenIdaDatabaseResult;
use crate::ids;
use crate::ids::SessionId;
use crate::json;
use crate::text;
use vstd::prelude::*;

verus! {

/// A session begins without a database, and is found once it is in the table.
pub proof fn new_sessions_are_found(
    id: SessionId,
    target: IdaTarget,
    now: u64,
    s: ReverseSession,
    t: &mut IdaSessions,
    unit: (),
    found: Result<ReverseSession, DbgFlowError>,
    other: SessionId,
    before: Result<ReverseSession, DbgFlowError>,
    after: Result<ReverseSession, DbgFlowError>,
)
    requires
        call_ensures(make_session, (id, target, now), s),
        call_ensures(IdaSessions::insert_session, (t, s), unit),
        call_ensures(IdaSessions::get, (&*final(t), id), found),
        call_ensures(IdaSessions::get, (&*old(t), other), before),
        call_ensures(IdaSessions::get, (&*final(t), other), after),
    ensures
        s@.id == id && s@.target == target@ && s@.state is Starting,
        s@.database_id is None && s@.error is None && s@.last_health is None,
        s@.created_at_unix_ms == now && s@.updated_at_unix_ms == now,
        s@.warnings.len() == 0 && s@.artifacts.len() == 0,
        found matches Ok(f) && f@ == s@,
        other.0 != id.0 ==> (after is Ok <==> before is Ok),
        other.0 != id.0 ==> (before matches Ok(x) ==> (after matches Ok(y) && y@ == x@)),
        before matches Err(e) ==> e@ == ErrorView::SessionNotFound(ids::uuid_text(other.0)),
{
}

/// An empty table holds no session and begins to count at zero.
pub proof fn tables_begin_empty(
    t: IdaSessions,
    id: SessionId,
    found: Result<ReverseSession, DbgFlowError>,
    bound: Result<String, DbgFlowError>,
    all: Vec<ReverseSession>,
)
    requires
        call_ensures(IdaSessions::new, (), t),
        call_ensures(IdaSessions::get, (&t, id), found),
        call_ensures(IdaSessions::database_id, (&t, id), bound),
        call_ensures(IdaSessions::list, (&t,), all),
    ensures
        found is Err,
        bound matches Err(e) && e@ == ErrorView::Backend(
            "IDA session "@ + ids::uuid_text(id.0) + " is not bound to an upstream database"@,
        ),
        all@.len() == 0,
        t@.sequence == 0,
{
    if all@.len() > 0 {
        assert(t@.sessions.contains_key(all@[0].id.0));
    }
}

/// A session that got its database is ready and bound to it.
pub proof fn bound_sessions_are_ready(
    t: &mut IdaSessions,
    id: SessionId,
    opened: OpenIdaDatabaseResult,
    now: u64,
    r: Result<(), DbgFlowError>,
    bound: Result<String, DbgFlowError>,
)
    requires
        table::keyed(old(t)@),
        call_ensures(IdaSessions::bind, (t, id, &opened, now), r),
        call_ensures(IdaSessions::database_id, (&*final(t), id), bound),
    ensures
        r is Ok <==> old(t)@.sessions.contains_key(id.0),
        r is Ok ==> {
            let s = final(t)@.sessions[id.0];
            &&& s.state is Ready
            &&& s.database_id == Some(opened@.session.database_id)
            &&& s.error is None
            &&& s.updated_at_unix_ms == now
            &&& s.target == old(t)@.sessions[id.0].target
        },
        bound matches Ok(d) && d@ == opened@.session.database_id,
        r matches Err(e) ==> e@ == ErrorView::SessionNotFound(ids::uuid_text(id.0)),
{
}

/// A session that failed says why and is not reachable.
pub proof fn failed_sessions_say_why(
    t: &mut IdaSessions,
    id: SessionId,
    error: &str,
    now: u64,
    r: Result<(), DbgFlowError>,
)
    requires
        table::keyed(old(t)@),
        call_ensures(IdaSessions::fail, (t, id, error, now), r),
    ensures
        r is Ok <==> old(t)@.sessions.contains_key(id.0),
        r is Ok ==> {
            let s = final(t)@.sessions[id.0];
            &&& s.state is Error
            &&& s.error == Some(error@)
            &&& s.last_health matches Some(h) && !h.reachable && h.error == Some(error@)
            &&& s.updated_at_unix_ms == now
            &&& s.database_id == old(t)@.sessions[id.0].database_id
        },
        r is Err ==> final(t)@ == old(t)@,
{
}

/// A session that is being closed remembers what it was, is that again when its database could not be
/// saved, and is closed and unbound when it was.
pub proof fn sessions_close_or_stay(
    t: &mut IdaSessions,
    u: &mut IdaSessions,
    v: &mut IdaSessions,
    id: SessionId,
    previous: ReverseSessionState,
    close: CloseDatabaseResult,
    error: &str,
    now: u64,
    marked: Result<ReverseSessionState, DbgFlowError>,
    kept: Result<(), DbgFlowError>,
    closed: Result<ReverseSession, DbgFlowError>,
    bound: Result<String, DbgFlowError>,
)
    requires
        table::keyed(old(t)@) && table::keyed(old(u)@) && table::keyed(old(v)@),
        old(t)@.sessions.contains_key(id.0),
        old(u)@.sessions.contains_key(id.0),
        old(v)@.sessions.contains_key(id.0),
        call_ensures(IdaSessions::mark_closing, (t, id, now), marked),
        call_ensures(IdaSessions::keep_open, (u, id, previous, &close, error, now), kept),
        call_ensures(IdaSessions::close, (v, id, &close, now), closed),
        call_ensures(IdaSessions::database_id, (&*final(v), id), bound),
    ensures
        marked == Ok::<ReverseSessionState, DbgFlowError>(old(t)@.sessions[id.0].state),
        final(t)@.sessions[id.0].state is Closing,
        final(t)@.sessions[id.0].error is None,
        kept is Ok,
        ({
            let s = final(u)@.sessions[id.0];
            &&& s.state == previous
            &&& s.error == Some(error@)
            &&& s.warnings == old(u)@.sessions[id.0].warnings.push(error@)
            &&& s.database_id == old(u)@.sessions[id.0].database_id
            &&& s.last_health matches Some(h) && h.reachable && h.error == Some(error@) && (
            h.detail matches Some(d) && d.bool_at("detached"@) == Some(false) && d.get("save"@)
                == Some(close@.value()))
        }),
        closed matches Ok(s) && s@.state is Closed && s@.database_id is None && s@
            == final(v)@.sessions[id.0],
        close.warning matches Some(w) ==> final(v)@.sessions[id.0].warnings
            == old(v)@.sessions[id.0].warnings.push(w@),
        close.warning is None ==> final(v)@.sessions[id.0].warnings
            == old(v)@.sessions[id.0].warnings,
        bound is Err,
{
    broadcast use json::added_members_are_found;

    reveal_strlit("save");
    reveal_strlit("detached");
    assert("save"@.len() == 4 && "detached"@.len() == 8);
}

/// What a session produced is added to it at the end.
pub proof fn artifacts_are_added_at_the_end(
    t: &mut IdaSessions,
    id: SessionId,
    artifact: ArtifactRef,
    now: u64,
    r: Result<(), DbgFlowError>,
)
    requires
        table::keyed(old(t)@),
        call_ensures(IdaSessions::append_artifact_to_session, (t, id, artifact, now), r),
    ensures
        r is Ok <==> old(t)@.sessions.contains_key(id.0),
        r is Ok ==> {
            let s = final(t)@.sessions[id.0];
            &&& s.artifacts == old(t)@.sessions[id.0].artifacts.push(artifact@)
            &&& s.state == old(t)@.sessions[id.0].state
            &&& s.updated_at_unix_ms == now
        },
{
}

/// Files of outputs are numbered one after the other, and their names hold only what file names may.
pub proof fn output_files_get_their_number(t: &mut IdaSessions, base: &str, r: String, i: int)
    requires
        call_ensures(IdaSessions::unique_output_name, (t, base), r),
    ensures
        old(t)@.sequence < u64::MAX ==> final(t)@.sequence == old(t)@.sequence + 1,
        final(t)@.sessions == old(t)@.sessions && final(t)@.databases == old(t)@.databases,
        ({
            let front = text::zero_padded(text::hex(old(t)@.sequence as nat), 16) + "-"@;
            let name = r@.skip(front.len() as int);
            &&& r@.len() == front.len() + base@.len()
            &&& r@.take(front.len() as int) == front
            &&& 0 <= i < base@.len() && ('a' <= base@[i] <= 'z' || 'A' <= base@[i] <= 'Z' || '0'
                <= base@[i] <= '9' || base@[i] == '.' || base@[i] == '-' || base@[i] == '_')
                ==> name[i] == base@[i]
            &&& 0 <= i < base@.len() && (base@[i] == '/' || base@[i] == '\\' || base@[i] == ':'
                || base@[i] == ' ' || base@[i] as u32 > 127) ==> name[i] == '_'
        }),
{
    let front = text::zero_padded(text::hex(old(t)@.sequence as nat), 16) + "-"@;
    let safe = base@.map_values(|c: char| table::safe_char(c));
    assert(r@.take(front.len() as int) =~= front);
    assert(r@.skip(front.len() as int) =~= safe);
}

/// A session is reused only for the same target, and only while it starts or is ready; sessions are
/// listed as they are, the oldest first and each once.
pub proof fn only_live_sessions_are_reused(
    t: IdaSessions,
    target: IdaTarget,
    r: Option<ReverseSession>,
    all: Vec<ReverseSession>,
    i: int,
    j: int,
)
    requires
        table::keyed(t@),
        call_ensures(IdaSessions::reusable_session_for_target, (&t, &target), r),
        call_ensures(IdaSessions::list, (&t,), all),
        0 <= i < j < all@.len(),
    ensures
        r matches Some(s) ==> s@.target.same_as(target@) && (s@.state is Starting || s@.state
            is Ready),
        all@[i].created_at_unix_ms <= all@[j].created_at_unix_ms,
        all@[i].id != all@[j].id,
        all@[i]@ == t@.sessions[all@[i].id.0],
{
}

} // verus!
