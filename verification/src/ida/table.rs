//! The sessions and the databases that they are bound to.

use crate::artifact;
use crate::artifact::{ArtifactRef, ArtifactView};
use crate::error::{DbgFlowError, ErrorView};
use crate::ida::model::{
    CloseDatabaseResult, CloseView, DatabaseView, HealthView, IdaSessionHealth, IdaUpstreamSession,
    ReverseSession, ReverseSessionState, SessionView,
};
use crate::ida::target::{IdaTarget, TargetView};
use crate::ida::worker;
use crate::ida::worker::{OpenIdaDatabaseResult, OpenedView};
use crate::ids;
use crate::ids::SessionId;
use crate::json;
use crate::json::{Json, JsonView};
use crate::text;
use crate::text::{cat3, chars_of, hex_padded_text, same};
use std::collections::BTreeMap;
use vstd::prelude::*;

verus! {

/// The name of the backend.
pub const BACKEND_NAME: &'static str = "ida-pro-mcp";

/// What a session that is no longer listed is charged with.
pub const NOT_LISTED: &'static str = "upstream IDA database session is no longer listed";

/// The sessions and the databases that they are bound to.
#[derive(Debug)]
pub struct IdaSessions {
    pub sessions: BTreeMap<u128, ReverseSession>,
    pub database_ids: BTreeMap<u128, String>,
    /// The number of the next output file.
    pub sequence: u64,
}

/// The mathematical form of the sessions and their databases.
#[verifier::ext_equal]
pub struct TableView {
    pub sessions: Map<u128, SessionView>,
    pub databases: Map<u128, Seq<char>>,
    pub sequence: u64,
}

impl View for IdaSessions {
    type V = TableView;

    open spec fn view(&self) -> TableView {
        TableView {
            sessions: self.sessions@.map_values(|s: ReverseSession| s@),
            databases: self.database_ids@.map_values(|s: String| s@),
            sequence: self.sequence,
        }
    }
}

impl TableView {
    /// The table with one session set.
    pub open spec fn with_session(self, s: SessionView) -> TableView {
        TableView { sessions: self.sessions.insert(s.id.0, s), ..self }
    }

    /// The table with one session bound to a database.
    pub open spec fn bound(self, id: u128, database: Seq<char>) -> TableView {
        TableView { databases: self.databases.insert(id, database), ..self }
    }

    /// The table with one session bound to no database.
    pub open spec fn unbound(self, id: u128) -> TableView {
        TableView { databases: self.databases.remove(id), ..self }
    }

    /// The table after one more output file was named.
    pub open spec fn counted(self) -> TableView {
        TableView {
            sequence: if self.sequence == u64::MAX {
                0
            } else {
                (self.sequence + 1) as u64
            },
            ..self
        }
    }
}

/// Whether each session is kept under its own identifier.
pub open spec fn keyed(t: TableView) -> bool {
    forall|k: u128| #[trigger] t.sessions.contains_key(k) ==> t.sessions[k].id.0 == k
}

/// Whether the bindings of a table are in order: a session is bound to a database if and only
/// if it names one, and then to that one; a closed session is bound to none.
pub open spec fn bindings_agree(t: TableView) -> bool {
    &&& keyed(t)
    &&& forall|k: u128| #[trigger] t.databases.contains_key(k) ==> t.sessions.contains_key(k)
    &&& forall|k: u128|
        #[trigger] t.sessions.contains_key(k) ==> match t.sessions[k].database_id {
            Some(d) => t.databases.contains_key(k) && t.databases[k] == d,
            None => !t.databases.contains_key(k),
        }
    &&& forall|k: u128|
        #[trigger] t.sessions.contains_key(k) && t.sessions[k].state == ReverseSessionState::Closed
            ==> t.sessions[k].database_id is None
}

/// A session that was just made.
pub open spec fn new_session(id: SessionId, target: TargetView, now: u64) -> SessionView {
    SessionView {
        id,
        backend: BACKEND_NAME@,
        target,
        state: ReverseSessionState::Starting,
        database_id: None,
        ida_backend: None,
        adopted: None,
        owned: None,
        pid: None,
        worker_pid: None,
        is_active: None,
        last_health: None,
        created_at_unix_ms: now,
        updated_at_unix_ms: now,
        warnings: Seq::empty(),
        artifacts: Seq::empty(),
        error: None,
    }
}

/// An optional value as a value.
pub open spec fn opt_value(o: Option<JsonView>) -> JsonView {
    match o {
        Some(v) => v,
        None => JsonView::Null,
    }
}

/// A session whose database was opened.
pub open spec fn opened_session(s: SessionView, o: OpenedView, now: u64) -> SessionView {
    SessionView {
        state: ReverseSessionState::Ready,
        database_id: Some(o.session.database_id),
        ida_backend: o.session.backend,
        adopted: o.session.adopted,
        owned: o.session.owned,
        pid: o.session.pid,
        worker_pid: o.session.worker_pid,
        is_active: o.session.is_active,
        last_health: Some(
            HealthView {
                reachable: true,
                detail: Some(
                    JsonView::object().with("session"@, o.session.value()).with(
                        "warmup"@,
                        opt_value(o.warmup),
                    ).with("message"@, json::opt_text_view(o.message)),
                ),
                error: None,
            },
        ),
        error: None,
        updated_at_unix_ms: now,
        ..s
    }
}

/// Nothing was heard of a session but an error.
pub open spec fn unreachable_health(error: Seq<char>) -> HealthView {
    HealthView { reachable: false, detail: None, error: Some(error) }
}

/// A session whose database could not be opened.
pub open spec fn failed_session(s: SessionView, error: Seq<char>, now: u64) -> SessionView {
    SessionView {
        state: ReverseSessionState::Error,
        error: Some(error),
        last_health: Some(unreachable_health(error)),
        updated_at_unix_ms: now,
        ..s
    }
}

/// The first database of a list with an identifier.
pub open spec fn database_in(list: Seq<DatabaseView>, id: Seq<char>) -> Option<DatabaseView>
    decreases list.len(),
{
    if list.len() == 0 {
        None
    } else if list[0].database_id == id {
        Some(list[0])
    } else {
        database_in(list.drop_first(), id)
    }
}

/// A session after the backend was asked for its databases.
pub open spec fn refreshed_session(
    s: SessionView,
    database_id: Seq<char>,
    listed: Result<Seq<DatabaseView>, ErrorView>,
    now: u64,
) -> SessionView {
    match listed {
        Err(e) => SessionView {
            last_health: Some(unreachable_health(e.text())),
            updated_at_unix_ms: now,
            ..s
        },
        Ok(list) => match database_in(list, database_id) {
            Some(d) => SessionView {
                ida_backend: d.backend,
                adopted: d.adopted,
                owned: d.owned,
                pid: d.pid,
                worker_pid: d.worker_pid,
                is_active: d.is_active,
                last_health: Some(
                    HealthView {
                        reachable: d.is_active != Some(false),
                        detail: Some(d.value()),
                        error: None,
                    },
                ),
                updated_at_unix_ms: now,
                ..s
            },
            None => SessionView {
                state: ReverseSessionState::Error,
                warnings: s.warnings.push(NOT_LISTED@),
                error: Some(NOT_LISTED@),
                is_active: Some(false),
                last_health: Some(unreachable_health(NOT_LISTED@)),
                updated_at_unix_ms: now,
                ..s
            },
        },
    }
}

/// A session that is being closed.
pub open spec fn closing_session(s: SessionView, now: u64) -> SessionView {
    SessionView {
        state: ReverseSessionState::Closing,
        error: None,
        updated_at_unix_ms: now,
        ..s
    }
}

/// A session that stays as it was because its database could not be saved.
pub open spec fn unsaved_session(
    s: SessionView,
    previous: ReverseSessionState,
    close: CloseView,
    error: Seq<char>,
    now: u64,
) -> SessionView {
    SessionView {
        state: previous,
        warnings: s.warnings.push(error),
        last_health: Some(
            HealthView {
                reachable: true,
                detail: Some(
                    JsonView::object().with("save"@, close.value()).with(
                        "detached"@,
                        JsonView::Bool(false),
                    ),
                ),
                error: Some(error),
            },
        ),
        error: Some(error),
        updated_at_unix_ms: now,
        ..s
    }
}

/// A session that was closed.
pub open spec fn closed_session(s: SessionView, close: CloseView, now: u64) -> SessionView {
    SessionView {
        state: ReverseSessionState::Closed,
        database_id: None,
        is_active: Some(false),
        last_health: Some(
            HealthView {
                reachable: false,
                detail: Some(
                    JsonView::object().with("save"@, close.value()).with(
                        "detached"@,
                        JsonView::Bool(true),
                    ).with_text("worker_lifecycle"@, "upstream idle TTL"@),
                ),
                error: None,
            },
        ),
        error: None,
        warnings: match close.warning {
            Some(w) => s.warnings.push(w),
            None => s.warnings,
        },
        updated_at_unix_ms: now,
        ..s
    }
}

/// A session with one more file.
pub open spec fn session_with_artifact(s: SessionView, a: ArtifactView, now: u64) -> SessionView {
    SessionView { artifacts: s.artifacts.push(a), updated_at_unix_ms: now, ..s }
}

/// The database for which the backend has to be asked before a session can be judged: none
/// for a session that is over or has no database.
pub open spec fn asked_for(t: TableView, id: u128) -> Option<Seq<char>> {
    if t.sessions.contains_key(id) && !t.sessions[id].state.terminal() {
        t.sessions[id].database_id
    } else {
        None
    }
}

/// The table after the backend was asked for its databases.
pub open spec fn refreshed(
    t: TableView,
    id: u128,
    database_id: Seq<char>,
    listed: Result<Seq<DatabaseView>, ErrorView>,
    now: u64,
) -> TableView {
    if t.sessions.contains_key(id) {
        t.with_session(refreshed_session(t.sessions[id], database_id, listed, now))
    } else {
        t
    }
}

/// The error about a session that is not there.
pub open spec fn not_found(id: SessionId) -> ErrorView {
    ErrorView::SessionNotFound(ids::uuid_text(id.0))
}

/// The error about a session that is closed.
pub open spec fn is_closed(id: SessionId) -> ErrorView {
    ErrorView::SessionClosed(ids::uuid_text(id.0))
}

/// The error about a session that is bound to no database.
pub open spec fn not_bound(id: SessionId) -> ErrorView {
    ErrorView::Backend(
        "IDA session "@ + ids::uuid_text(id.0) + " is not bound to an upstream database"@,
    )
}

/// The view of what the backend listed.
pub open spec fn listed_view(r: Result<Vec<IdaUpstreamSession>, DbgFlowError>) -> Result<
    Seq<DatabaseView>,
    ErrorView,
> {
    match r {
        Ok(v) => Ok(worker::databases_view(v@)),
        Err(e) => Err(e@),
    }
}

/// A character of a file name: letters and digits of the ASCII alphabet, dots, hyphens and
/// underscores stay, others become underscores.
pub open spec fn safe_char(c: char) -> char {
    if 'a' <= c <= 'z' || 'A' <= c <= 'Z' || '0' <= c <= '9' || c == '.' || c == '-' || c == '_' {
        c
    } else {
        '_'
    }
}

/// The name of an output file.
pub open spec fn output_name(sequence: u64, base: Seq<char>) -> Seq<char> {
    text::zero_padded(text::hex(sequence as nat), 16) + "-"@ + base.map_values(
        |c: char| safe_char(c),
    )
}

fn safe_text(base: &str) -> (r: String)
    ensures
        r@ == base@.map_values(|c: char| safe_char(c)),
{
    let chars = chars_of(base);
    let mut out = String::new();
    let mut i: usize = 0;
    while i < chars.len()
        invariant
            i <= chars@.len(),
            chars@ == base@,
            out@ == base@.take(i as int).map_values(|c: char| safe_char(c)),
        decreases chars@.len() - i,
    {
        let c = chars[i];
        let plain = ('a' <= c && c <= 'z') || ('A' <= c && c <= 'Z') || ('0' <= c && c <= '9') || c
            == '.' || c == '-' || c == '_';
        out.push(
            if plain {
                c
            } else {
                '_'
            },
        );
        i += 1;
        assert(out@ =~= base@.take(i as int).map_values(|c: char| safe_char(c)));
    }
    assert(base@.take(i as int) =~= base@);
    out
}

/// Makes a session.
pub fn make_session(id: SessionId, target: IdaTarget, now: u64) -> (r: ReverseSession)
    ensures
        r@ == new_session(id, target@, now),
{
    let r = ReverseSession {
        id,
        backend: BACKEND_NAME.to_owned(),
        target,
        state: ReverseSessionState::Starting,
        database_id: None,
        ida_backend: None,
        adopted: None,
        owned: None,
        pid: None,
        worker_pid: None,
        is_active: None,
        last_health: None,
        created_at_unix_ms: now,
        updated_at_unix_ms: now,
        warnings: Vec::new(),
        artifacts: Vec::new(),
        error: None,
    };
    assert(r@ =~= new_session(id, target@, now));
    r
}

fn find_database<'a>(list: &'a [IdaUpstreamSession], id: &str) -> (r: Option<
    &'a IdaUpstreamSession,
>)
    ensures
        match r {
            Some(d) => database_in(worker::databases_view(list@), id@) == Some(d@),
            None => database_in(worker::databases_view(list@), id@) is None,
        },
{
    let ghost all = worker::databases_view(list@);
    let mut i: usize = 0;
    assert(all.skip(0) =~= all);
    while i < list.len()
        invariant
            i <= list@.len(),
            all == worker::databases_view(list@),
            database_in(all, id@) == database_in(all.skip(i as int), id@),
        decreases list@.len() - i,
    {
        assert(all.skip(i as int)[0] == list@[i as int]@);
        assert(all.skip(i as int).drop_first() =~= all.skip(i + 1));
        if same(list[i].database_id.as_str(), id) {
            return Some(&list[i]);
        }
        i += 1;
    }
    assert(all.skip(i as int).len() == 0);
    None
}

fn unreachable(error: &str) -> (r: IdaSessionHealth)
    ensures
        r@ == unreachable_health(error@),
{
    IdaSessionHealth { reachable: false, detail: None, error: Some(error.to_owned()) }
}

/// Whether a list is in the order of age, without repetitions.
spec fn in_age_order(v: Seq<ReverseSession>) -> bool {
    forall|i: int, j: int|
        #![trigger v[i], v[j]]
        0 <= i < j < v.len() ==> v[i].created_at_unix_ms <= v[j].created_at_unix_ms && v[i].id
            != v[j].id
}

/// Whether a session of a list has an identifier.
spec fn has_id(v: Seq<ReverseSession>, id: u128) -> bool {
    exists|i: int| 0 <= i < v.len() && (#[trigger] v[i]).id.0 == id
}

/// Whether one of the first pairs of a list has a key.
spec fn holds_key(pairs: Seq<(&u128, &ReverseSession)>, n: int, id: u128) -> bool {
    exists|j: int| 0 <= j < n && *(#[trigger] pairs[j]).0 == id
}

impl IdaSessions {
    /// No sessions.
    pub fn new() -> (r: IdaSessions)
        ensures
            r@ == (TableView { sessions: Map::empty(), databases: Map::empty(), sequence: 0 }),
            bindings_agree(r@),
    {
        let r = IdaSessions {
            sessions: BTreeMap::new(),
            database_ids: BTreeMap::new(),
            sequence: 0,
        };
        assert(r@ =~= (TableView { sessions: Map::empty(), databases: Map::empty(), sequence: 0 }));
        r
    }

    fn take(&mut self, id: u128) -> (r: Option<ReverseSession>)
        ensures
            match r {
                Some(s) => old(self)@.sessions.contains_key(id) && s@ == old(self)@.sessions[id]
                    && final(self)@ == (TableView {
                    sessions: old(self)@.sessions.remove(id),
                    ..old(self)@
                }),
                None => !old(self)@.sessions.contains_key(id) && final(self)@ == old(self)@,
            },
    {
        let r = self.sessions.remove(&id);
        assert(self@.sessions =~= old(self)@.sessions.remove(id));
        if r.is_none() {
            assert(self@.sessions =~= old(self)@.sessions);
        }
        r
    }

    fn put(&mut self, session: ReverseSession)
        ensures
            final(self)@ == old(self)@.with_session(session@),
    {
        let key = session.id.0;
        self.sessions.insert(key, session);
        assert(self@.sessions =~= old(self)@.sessions.insert(key, session@));
    }

    /// A session.
    pub fn get(&self, id: SessionId) -> (r: Result<ReverseSession, DbgFlowError>)
        ensures
            match r {
                Ok(s) => self@.sessions.contains_key(id.0) && s@ == self@.sessions[id.0],
                Err(e) => !self@.sessions.contains_key(id.0) && e@ == not_found(id),
            },
    {
        match self.sessions.get(&id.0) {
            Some(session) => Ok(session.duplicate()),
            None => Err(DbgFlowError::SessionNotFound(id.to_text())),
        }
    }

    /// The database that a session is bound to.
    pub fn database_id(&self, id: SessionId) -> (r: Result<String, DbgFlowError>)
        ensures
            match r {
                Ok(s) => self@.databases.contains_key(id.0) && s@ == self@.databases[id.0],
                Err(e) => !self@.databases.contains_key(id.0) && e@ == not_bound(id),
            },
    {
        match self.database_ids.get(&id.0) {
            Some(database) => Ok(database.clone()),
            None => Err(
                DbgFlowError::Backend(
                    cat3(
                        "IDA session ",
                        id.to_text().as_str(),
                        " is not bound to an upstream database",
                    ),
                ),
            ),
        }
    }

    /// A session that can be shared by those who ask for a target, if there is one.
    pub fn reusable_session_for_target(&self, target: &IdaTarget) -> (r: Option<ReverseSession>)
        ensures
            match r {
                Some(s) => exists|k: u128| #[trigger]
                    self@.sessions.contains_key(k) && self@.sessions[k] == s@
                        && s@.target.same_as(target@) && s@.state.reusable(),
                None => forall|k: u128| #[trigger]
                    self@.sessions.contains_key(k) ==> !(self@.sessions[k].target.same_as(target@)
                        && self@.sessions[k].state.reusable()),
            },
    {
        let ghost all = self@.sessions;
        for pair in it: self.sessions.iter()
            invariant
                all == self@.sessions,
                forall|i: int|
                    0 <= i < it.index() ==> !((#[trigger] it.seq()[i]).1@.target.same_as(target@)
                        && it.seq()[i].1@.state.reusable()),
        {
            let session = pair.1;
            if session.target.is_same(target) && session.state.is_reusable() {
                let r = session.duplicate();
                assert(self.sessions@.contains_pair(*pair.0, *pair.1));
                assert(all.contains_key(*pair.0) && all[*pair.0] == r@);
                return Some(r);
            }
        }
        None
    }

    /// All sessions, the oldest first.
    pub fn list(&self) -> (r: Vec<ReverseSession>)
        requires
            keyed(self@),
        ensures
            forall|i: int, j: int|
                #![trigger r@[i], r@[j]]
                0 <= i < j < r@.len() ==> r@[i].created_at_unix_ms <= r@[j].created_at_unix_ms
                    && r@[i].id != r@[j].id,
            forall|i: int|
                #![trigger r@[i]]
                0 <= i < r@.len() ==> self@.sessions.contains_key(r@[i].id.0) && r@[i]@
                    == self@.sessions[r@[i].id.0],
            forall|k: u128| #[trigger]
                self@.sessions.contains_key(k) ==> exists|i: int|
                    0 <= i < r@.len() && (#[trigger] r@[i]).id.0 == k,
    {
        let ghost all = self@.sessions;
        let mut out: Vec<ReverseSession> = Vec::new();
        for pair in it: self.sessions.iter()
            invariant
                all == self@.sessions,
                keyed(self@),
                it.seq().no_duplicates(),
                in_age_order(out@),
                forall|i: int|
                    #![trigger out@[i]]
                    0 <= i < out@.len() ==> all.contains_key(out@[i].id.0) && out@[i]@
                        == all[out@[i].id.0] && holds_key(it.seq(), it.index() as int, out@[i].id.0),
                forall|j: int|
                    0 <= j < it.index() ==> has_id(out@, *(#[trigger] it.seq()[j]).0),
        {
            let ghost n = it.index() as int;
            let ghost seq = it.seq();
            let ghost before = out@;
            assert(self.sessions@.contains_pair(*pair.0, *pair.1));
            assert(all.contains_key(*pair.0) && all[*pair.0] == pair.1@);
            let session = pair.1.duplicate();
            assert(session.id.0 == *pair.0);
            proof {
                if has_id(before, *pair.0) {
                    let i = choose|i: int|
                        0 <= i < before.len() && (#[trigger] before[i]).id.0 == *pair.0;
                    let j = choose|j: int| 0 <= j < n && *(#[trigger] seq[j]).0 == before[i].id.0;
                    assert(self.sessions@.contains_pair(*seq[j].0, *seq[j].1));
                    assert(seq[j] == seq[n]);
                    assert(false);
                }
            }
            let mut at: usize = out.len();
            while at > 0 && out[at - 1].created_at_unix_ms > session.created_at_unix_ms
                invariant
                    at <= out@.len(),
                    out@ == before,
                    in_age_order(out@),
                    forall|i: int|
                        at <= i < out@.len() ==> (#[trigger] out@[i]).created_at_unix_ms
                            > session.created_at_unix_ms,
                decreases at,
            {
                at -= 1;
            }
            let ghost x = session;
            out.insert(at, session);
            proof {
                assert(out@ == before.insert(at as int, x));
                assert forall|i: int, j: int| 0 <= i < j < out@.len() implies (#[trigger] out@[i]).created_at_unix_ms
                    <= (#[trigger] out@[j]).created_at_unix_ms && out@[i].id != out@[j].id by {
                    if i == at {
                        assert(out@[j] == before[j - 1]);
                        assert(before[j - 1].id.0 != *pair.0);
                    } else if j == at {
                        assert(out@[i] == before[i]);
                        assert(before[i].id.0 != *pair.0);
                        assert(before[i].created_at_unix_ms <= before[at - 1].created_at_unix_ms);
                    }
                }
                assert forall|i: int| #![trigger out@[i]] 0 <= i < out@.len() implies all.contains_key(
                    out@[i].id.0,
                ) && out@[i]@ == all[out@[i].id.0] && holds_key(seq, n + 1, out@[i].id.0) by {
                    if i == at {
                        assert(*seq[n].0 == out@[i].id.0);
                    } else {
                        let k = if i < at {
                            i
                        } else {
                            i - 1
                        };
                        assert(out@[i] == before[k]);
                        let j = choose|j: int| 0 <= j < n && *(#[trigger] seq[j]).0 == before[k].id.0;
                        assert(*seq[j].0 == out@[i].id.0);
                    }
                }
                assert forall|j: int| 0 <= j < n + 1 implies has_id(out@, *(#[trigger] seq[j]).0) by {
                    if j == n {
                        assert(out@[at as int].id.0 == *seq[j].0);
                    } else {
                        let i = choose|i: int|
                            0 <= i < before.len() && (#[trigger] before[i]).id.0 == *seq[j].0;
                        let k = if i < at {
                            i
                        } else {
                            i + 1
                        };
                        assert(out@[k] == before[i]);
                    }
                }
            }
        }
        assert forall|k: u128| #[trigger] self@.sessions.contains_key(k) implies exists|i: int|
            0 <= i < out@.len() && (#[trigger] out@[i]).id.0 == k by {
            assert(self.sessions@.contains_pair(k, self.sessions@[k]));
        }
        out
    }

    /// Keeps a session.
    pub fn insert_session(&mut self, session: ReverseSession)
        ensures
            final(self)@ == old(self)@.with_session(session@),
    {
        self.put(session);
    }

    /// The database for which the backend has to be asked before a session can be judged.
    pub fn listing_for(&self, id: SessionId) -> (r: Option<String>)
        ensures
            text::view_opt(r) == asked_for(self@, id.0),
    {
        match self.sessions.get(&id.0) {
            Some(session) => if session.state.is_terminal() {
                None
            } else {
                text::copy_opt(&session.database_id)
            },
            None => None,
        }
    }

    /// Takes in what the backend listed.
    pub fn refresh(
        &mut self,
        id: SessionId,
        database_id: &str,
        listed: Result<Vec<IdaUpstreamSession>, DbgFlowError>,
        now: u64,
    )
        requires
            keyed(old(self)@),
        ensures
            final(self)@ == refreshed(old(self)@, id.0, database_id@, listed_view(listed), now),
    {
        let ghost before = self@;
        let mut session = match self.take(id.0) {
            Some(session) => session,
            None => {
                return ;
            },
        };
        let ghost was = session@;
        match listed {
            Err(error) => {
                session.last_health = Some(unreachable(error.message().as_str()));
            },
            Ok(list) => match find_database(list.as_slice(), database_id) {
                Some(entry) => {
                    session.ida_backend = text::copy_opt(&entry.backend);
                    session.adopted = entry.adopted;
                    session.owned = entry.owned;
                    session.pid = entry.pid;
                    session.worker_pid = entry.worker_pid;
                    session.is_active = entry.is_active;
                    let reachable = match entry.is_active {
                        Some(active) => active,
                        None => true,
                    };
                    session.last_health = Some(
                        IdaSessionHealth { reachable, detail: Some(entry.to_json()), error: None },
                    );
                },
                None => {
                    session.warnings.push(NOT_LISTED.to_owned());
                    assert(text::views(session.warnings@) =~= was.warnings.push(NOT_LISTED@));
                    session.state = ReverseSessionState::Error;
                    session.error = Some(NOT_LISTED.to_owned());
                    session.is_active = Some(false);
                    session.last_health = Some(unreachable(NOT_LISTED));
                },
            },
        }
        session.updated_at_unix_ms = now;
        assert(session@ =~= refreshed_session(was, database_id@, listed_view(listed), now));
        self.put(session);
        assert(self@ =~= before.with_session(
            refreshed_session(was, database_id@, listed_view(listed), now),
        ));
    }

    /// Takes in that the database of a session was opened.
    pub fn bind(&mut self, id: SessionId, opened: &OpenIdaDatabaseResult, now: u64) -> (r: Result<
        (),
        DbgFlowError,
    >)
        requires
            keyed(old(self)@),
        ensures
            ({
                let t = old(self)@.bound(id.0, opened@.session.database_id);
                if old(self)@.sessions.contains_key(id.0) {
                    r is Ok && final(self)@ == t.with_session(
                        opened_session(t.sessions[id.0], opened@, now),
                    )
                } else {
                    final(self)@ == t && (r matches Err(e) && e@ == not_found(id))
                }
            }),
    {
        let ghost before = self@;
        self.database_ids.insert(id.0, opened.session.database_id.clone());
        assert(self@ =~= before.bound(id.0, opened@.session.database_id));
        let mut session = match self.take(id.0) {
            Some(session) => session,
            None => {
                return Err(DbgFlowError::SessionNotFound(id.to_text()));
            },
        };
        let ghost was = session@;
        session.state = ReverseSessionState::Ready;
        session.database_id = Some(opened.session.database_id.clone());
        session.ida_backend = text::copy_opt(&opened.session.backend);
        session.adopted = opened.session.adopted;
        session.owned = opened.session.owned;
        session.pid = opened.session.pid;
        session.worker_pid = opened.session.worker_pid;
        session.is_active = opened.session.is_active;
        let warmup = match &opened.warmup {
            Some(value) => value.duplicate(),
            None => Json::Null,
        };
        let detail = Json::object().with("session", opened.session.to_json()).with(
            "warmup",
            warmup,
        ).with("message", Json::text_opt(&opened.message));
        session.last_health = Some(
            IdaSessionHealth { reachable: true, detail: Some(detail), error: None },
        );
        session.error = None;
        session.updated_at_unix_ms = now;
        assert(session@ =~= opened_session(was, opened@, now));
        self.put(session);
        assert(self@ =~= before.bound(id.0, opened@.session.database_id).with_session(
            opened_session(was, opened@, now),
        ));
        Ok(())
    }

    /// Takes in that the database of a session could not be opened.
    pub fn fail(&mut self, id: SessionId, error: &str, now: u64) -> (r: Result<(), DbgFlowError>)
        requires
            keyed(old(self)@),
        ensures
            if old(self)@.sessions.contains_key(id.0) {
                r is Ok && final(self)@ == old(self)@.with_session(
                    failed_session(old(self)@.sessions[id.0], error@, now),
                )
            } else {
                final(self)@ == old(self)@ && (r matches Err(e) && e@ == not_found(id))
            },
    {
        let ghost before = self@;
        let mut session = match self.take(id.0) {
            Some(session) => session,
            None => {
                return Err(DbgFlowError::SessionNotFound(id.to_text()));
            },
        };
        let ghost was = session@;
        session.state = ReverseSessionState::Error;
        session.error = Some(error.to_owned());
        session.last_health = Some(unreachable(error));
        session.updated_at_unix_ms = now;
        assert(session@ =~= failed_session(was, error@, now));
        self.put(session);
        assert(self@ =~= before.with_session(failed_session(was, error@, now)));
        Ok(())
    }

    /// Marks a session as being closed; the result is its state before.
    pub fn mark_closing(&mut self, id: SessionId, now: u64) -> (r: Result<
        ReverseSessionState,
        DbgFlowError,
    >)
        requires
            keyed(old(self)@),
        ensures
            if old(self)@.sessions.contains_key(id.0) {
                final(self)@ == old(self)@.with_session(
                    closing_session(old(self)@.sessions[id.0], now),
                ) && (r matches Ok(state) && state == old(self)@.sessions[id.0].state)
            } else {
                final(self)@ == old(self)@ && (r matches Err(e) && e@ == not_found(id))
            },
    {
        let ghost before = self@;
        let mut session = match self.take(id.0) {
            Some(session) => session,
            None => {
                return Err(DbgFlowError::SessionNotFound(id.to_text()));
            },
        };
        let ghost was = session@;
        let previous = session.state;
        session.state = ReverseSessionState::Closing;
        session.error = None;
        session.updated_at_unix_ms = now;
        assert(session@ =~= closing_session(was, now));
        self.put(session);
        assert(self@ =~= before.with_session(closing_session(was, now)));
        Ok(previous)
    }

    /// Puts a session whose database could not be saved back as it was.
    pub fn keep_open(
        &mut self,
        id: SessionId,
        previous: ReverseSessionState,
        close: &CloseDatabaseResult,
        error: &str,
        now: u64,
    ) -> (r: Result<(), DbgFlowError>)
        requires
            keyed(old(self)@),
        ensures
            if old(self)@.sessions.contains_key(id.0) {
                r is Ok && final(self)@ == old(self)@.with_session(
                    unsaved_session(old(self)@.sessions[id.0], previous, close@, error@, now),
                )
            } else {
                final(self)@ == old(self)@ && (r matches Err(e) && e@ == not_found(id))
            },
    {
        let ghost before = self@;
        let mut session = match self.take(id.0) {
            Some(session) => session,
            None => {
                return Err(DbgFlowError::SessionNotFound(id.to_text()));
            },
        };
        let ghost was = session@;
        session.warnings.push(error.to_owned());
        assert(text::views(session.warnings@) =~= was.warnings.push(error@));
        session.state = previous;
        let detail = Json::object().with("save", close.to_json()).with(
            "detached",
            Json::Bool(false),
        );
        session.last_health = Some(
            IdaSessionHealth {
                reachable: true,
                detail: Some(detail),
                error: Some(error.to_owned()),
            },
        );
        session.error = Some(error.to_owned());
        session.updated_at_unix_ms = now;
        assert(session@ =~= unsaved_session(was, previous, close@, error@, now));
        self.put(session);
        assert(self@ =~= before.with_session(
            unsaved_session(was, previous, close@, error@, now),
        ));
        Ok(())
    }

    /// Lets the database of a session go and closes the session; the result is the session.
    pub fn close(&mut self, id: SessionId, close: &CloseDatabaseResult, now: u64) -> (r: Result<
        ReverseSession,
        DbgFlowError,
    >)
        requires
            keyed(old(self)@),
        ensures
            ({
                let t = old(self)@.unbound(id.0);
                if old(self)@.sessions.contains_key(id.0) {
                    let s = closed_session(old(self)@.sessions[id.0], close@, now);
                    final(self)@ == t.with_session(s) && (r matches Ok(session) && session@ == s)
                } else {
                    final(self)@ == t && (r matches Err(e) && e@ == not_found(id))
                }
            }),
    {
        let ghost before = self@;
        let _ = self.database_ids.remove(&id.0);
        assert(self@ =~= before.unbound(id.0));
        let mut session = match self.take(id.0) {
            Some(session) => session,
            None => {
                return Err(DbgFlowError::SessionNotFound(id.to_text()));
            },
        };
        let ghost was = session@;
        match &close.warning {
            Some(warning) => {
                session.warnings.push(warning.clone());
                assert(text::views(session.warnings@) =~= was.warnings.push(warning@));
            },
            None => {},
        }
        session.state = ReverseSessionState::Closed;
        session.database_id = None;
        session.is_active = Some(false);
        let detail = Json::object().with("save", close.to_json()).with(
            "detached",
            Json::Bool(true),
        ).with_text("worker_lifecycle", "upstream idle TTL");
        session.last_health = Some(
            IdaSessionHealth { reachable: false, detail: Some(detail), error: None },
        );
        session.error = None;
        session.updated_at_unix_ms = now;
        assert(session@ =~= closed_session(was, close@, now));
        let r = session.duplicate();
        self.put(session);
        assert(self@ =~= before.unbound(id.0).with_session(closed_session(was, close@, now)));
        Ok(r)
    }

    /// Adds a file to a session.
    pub fn append_artifact_to_session(
        &mut self,
        id: SessionId,
        artifact: ArtifactRef,
        now: u64,
    ) -> (r: Result<(), DbgFlowError>)
        requires
            keyed(old(self)@),
        ensures
            if old(self)@.sessions.contains_key(id.0) {
                r is Ok && final(self)@ == old(self)@.with_session(
                    session_with_artifact(old(self)@.sessions[id.0], artifact@, now),
                )
            } else {
                final(self)@ == old(self)@ && (r matches Err(e) && e@ == not_found(id))
            },
    {
        let ghost before = self@;
        let mut session = match self.take(id.0) {
            Some(session) => session,
            None => {
                return Err(DbgFlowError::SessionNotFound(id.to_text()));
            },
        };
        let ghost was = session@;
        session.artifacts.push(artifact);
        assert(artifact::artifacts_view(session.artifacts@) =~= was.artifacts.push(artifact@));
        session.updated_at_unix_ms = now;
        assert(session@ =~= session_with_artifact(was, artifact@, now));
        self.put(session);
        assert(self@ =~= before.with_session(session_with_artifact(was, artifact@, now)));
        Ok(())
    }

    /// The name of the next output file.
    pub fn unique_output_name(&mut self, base: &str) -> (r: String)
        ensures
            r@ == output_name(old(self)@.sequence, base@),
            final(self)@ == old(self)@.counted(),
    {
        let sequence = self.sequence;
        self.sequence = if sequence == u64::MAX {
            0
        } else {
            sequence + 1
        };
        let number = hex_padded_text(sequence, 16);
        cat3(number.as_str(), "-", safe_text(base).as_str())
    }
}

} // verus!
