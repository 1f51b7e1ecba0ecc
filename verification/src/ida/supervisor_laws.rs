//! Laws of the requests that wait for the supervisor, of its paths and of lists of directories.

use crate::error::{DbgFlowError, ErrorView};
use crate::ida::supervisor;
use crate::ida::supervisor::{
    profile_path, read_error_text, supervisor_log_path, timeout_text, PendingRequests,
    SupervisorReply,
};
use crate::ida::target::{validate_path_text, IdaTarget};
use crate::json;
use crate::json::{Json, JsonView};
use crate::search_path;
use crate::search_path::{join_search_path, split_search_path};
use crate::text;
use crate::winpath;
use vstd::prelude::*;

verus! {

/// Requests are numbered one after the other from one on, and each waits until it is answered or
/// given up.
pub proof fn requests_are_numbered_in_order(
    p: &mut PendingRequests,
    first: u64,
    fresh: PendingRequests,
    q: &mut PendingRequests,
    given_up: u64,
    unit: (),
)
    requires
        call_ensures(PendingRequests::new, (), fresh),
        call_ensures(PendingRequests::begin, (p,), first),
        call_ensures(PendingRequests::cancel, (q, given_up), unit),
    ensures
        fresh@.next == 1 && fresh@.waiting == Set::<u64>::empty(),
        first == old(p)@.next,
        first < u64::MAX ==> final(p)@.next == first + 1,
        final(p)@.waiting.contains(first),
        forall|id: u64| #[trigger]
            final(p)@.waiting.contains(id) <==> id == first || old(p)@.waiting.contains(id),
        !final(q)@.waiting.contains(given_up),
        forall|id: u64|
            id != given_up ==> (#[trigger] final(q)@.waiting.contains(id)
                <==> old(q)@.waiting.contains(id)),
        final(q)@.next == old(q)@.next,
{
}

/// An answer goes to the request that it names, if that one waits, with its result or its error; any
/// other answer is passed over.
pub proof fn answers_go_to_their_request(
    p: &mut PendingRequests,
    response: Json,
    id: u64,
    r: SupervisorReply,
)
    requires
        response@.get("id"@) == Some(JsonView::Unsigned(id)),
        call_ensures(PendingRequests::take_response, (p, &response), r),
    ensures
        !old(p)@.waiting.contains(id) ==> r is Ignored && final(p)@ == old(p)@,
        old(p)@.waiting.contains(id) ==> (r matches SupervisorReply::Answered {
            request_id,
            outcome,
        } && request_id == id && {
            &&& response@.get("error"@) is Some ==> outcome is Err
            &&& response@.get("error"@) matches Some(e) ==> (e.get("message"@) matches Some(
                JsonView::Text(m),
            ) ==> (outcome matches Err(x) && x@ == ErrorView::Backend(m)))
            &&& response@.get("error"@) is None ==> (response@.get("result"@) matches Some(v) ==> (
            outcome matches Ok(x) && x@ == v))
            &&& response@.get("error"@) is None && response@.get("result"@) is None ==> (outcome
                matches Ok(x) && x@ is Null)
        }),
        old(p)@.waiting.contains(id) ==> !final(p)@.waiting.contains(id),
        forall|other: u64|
            other != id ==> (#[trigger] final(p)@.waiting.contains(other)
                <==> old(p)@.waiting.contains(other)),
{
}

/// When the supervisor is gone all requests that waited fail, and none waits any more.
pub proof fn all_requests_fail_together(
    p: &mut PendingRequests,
    error: &str,
    r: SupervisorReply,
    id: u64,
)
    requires
        call_ensures(PendingRequests::fail_pending, (p, error), r),
    ensures
        !final(p)@.waiting.contains(id),
        r matches SupervisorReply::Failed { request_ids, error: e } && e@ == ErrorView::Backend(
            error@,
        ) && (request_ids@.contains(id) <==> old(p)@.waiting.contains(id)),
{
    if let SupervisorReply::Failed { request_ids, error: e } = r {
        assert(request_ids@.to_set().contains(id) <==> request_ids@.contains(id));
    }
}

/// A line that is no value fails all that wait, with the line in the error.
pub proof fn wrong_lines_fail_all_requests(
    p: &mut PendingRequests,
    line: &str,
    m: Seq<char>,
    r: SupervisorReply,
)
    requires
        json::json_read(line@) == Err::<JsonView, Seq<char>>(m),
        call_ensures(PendingRequests::take_line, (p, line), r),
    ensures
        r matches SupervisorReply::Failed { request_ids, error } && error@ == ErrorView::Backend(
            "parse supervisor response: "@ + m + ": "@ + line@,
        ),
        final(p)@.waiting == Set::<u64>::empty(),
{
}

/// What went wrong with the supervisor is said, and its files lie among those of the sessions.
pub proof fn supervisors_have_their_texts_and_files(
    error: &str,
    read: String,
    ms: u64,
    late: String,
    root: &str,
    profile: String,
    log: String,
)
    requires
        call_ensures(read_error_text, (error,), read),
        call_ensures(timeout_text, (ms,), late),
        call_ensures(profile_path, (root,), profile),
        call_ensures(supervisor_log_path, (root,), log),
    ensures
        read@ == "read supervisor response: "@ + error@,
        late@ == "ida-pro-mcp supervisor request timed out after "@ + text::decimal(ms as nat)
            + " ms"@,
        profile@ == winpath::joined_path(
            winpath::joined_path(root@, "reverse_sessions"@),
            "ida-pro-mcp-dbgflow-profile.txt"@,
        ),
        log@ == winpath::joined_path(
            winpath::joined_path(root@, "reverse_sessions"@),
            "ida-pro-mcp-supervisor.log"@,
        ),
{
}

/// A target keeps its kind when it gets another path, and a path has to be a text without zeros.
pub proof fn targets_keep_their_kind(
    target: IdaTarget,
    path: String,
    moved: IdaTarget,
    place: &String,
    s: &str,
    checked: Result<(), DbgFlowError>,
)
    requires
        call_ensures(IdaTarget::with_path, (target, path), moved),
        call_ensures(IdaTarget::path, (&target,), place),
        call_ensures(validate_path_text, (s,), checked),
    ensures
        target is Binary ==> (moved matches IdaTarget::Binary { path: p } && p@ == path@),
        target is Database ==> (moved matches IdaTarget::Database { path: p } && p@ == path@),
        target matches IdaTarget::Binary { path: p } ==> place@ == p@,
        target matches IdaTarget::Database { path: p } ==> place@ == p@,
        checked is Ok <==> s@.len() > 0 && !s@.contains('\0'),
        s@.len() == 0 ==> (checked matches Err(e) && e@ == ErrorView::Backend(
            "IDA target path must not be empty"@,
        )),
{
    let a = moved@;
    let b = target@;
}

/// A list of directories is divided at its semicolons; what is joined is divided again into the
/// same, and a directory with a quote cannot be listed.
pub proof fn directories_are_divided_at_semicolons(
    dir: &str,
    rest: &str,
    list: &str,
    dirs: Vec<String>,
    others: Vec<String>,
    bad: &[String],
    joined: Option<String>,
    i: int,
)
    requires
        !dir@.contains(';') && !dir@.contains('"'),
        list@ == dir@ + seq![';'] + rest@,
        call_ensures(split_search_path, (list,), dirs),
        call_ensures(split_search_path, (rest,), others),
        call_ensures(join_search_path, (bad,), joined),
    ensures
        text::views(dirs@) == seq![dir@] + text::views(others@),
        0 <= i < bad@.len() && bad@[i]@.contains('"') ==> joined is None,
{
    let start = search_path::SplitView::start();
    let head = dir@ + seq![';'];
    plain_is_kept(start, dir@);
    let mid = search_path::SplitView { done: seq![dir@], entry: Seq::empty(), quoted: false };
    assert(head.drop_last() =~= dir@);
    assert(head.last() == ';');
    assert(start.entry + dir@ =~= dir@);
    assert(start.done.push(dir@) =~= seq![dir@]);
    assert(start.with_all(head) == mid);
    later_entries_follow(mid, start, rest@, seq![dir@]);
    read_on(start, head, rest@);
    assert(mid.done =~= seq![dir@] + start.done);
    let a = mid.with_all(rest@);
    let b = start.with_all(rest@);
    assert(a.done.push(a.entry) =~= seq![dir@] + b.done.push(b.entry));
    if 0 <= i < bad@.len() && bad@[i]@.contains('"') {
        assert(text::views(bad@)[i] == bad@[i]@);
    }
}

proof fn read_on(v: search_path::SplitView, a: Seq<char>, b: Seq<char>)
    ensures
        v.with_all(a + b) == v.with_all(a).with_all(b),
    decreases b.len(),
{
    if b.len() == 0 {
        assert(a + b =~= a);
    } else {
        assert((a + b).drop_last() =~= a + b.drop_last());
        assert((a + b).last() == b.last());
        read_on(v, a, b.drop_last());
    }
}

proof fn plain_is_kept(v: search_path::SplitView, s: Seq<char>)
    requires
        !s.contains(';') && !s.contains('"'),
    ensures
        v.with_all(s) == (search_path::SplitView { entry: v.entry + s, ..v }),
    decreases s.len(),
{
    if s.len() == 0 {
        assert(v.entry + s =~= v.entry);
    } else {
        assert(s.contains(s.last()));
        let left = s.drop_last();
        assert forall|c: char| left.contains(c) implies s.contains(c) by {
            let i = choose|i: int| 0 <= i < left.len() && left[i] == c;
            assert(s[i] == c);
        }
        plain_is_kept(v, left);
        assert((v.entry + left).push(s.last()) =~= v.entry + s);
    }
}

proof fn later_entries_follow(
    a: search_path::SplitView,
    b: search_path::SplitView,
    s: Seq<char>,
    front: Seq<Seq<char>>,
)
    requires
        a.done == front + b.done,
        a.entry == b.entry,
        a.quoted == b.quoted,
    ensures
        a.with_all(s).done == front + b.with_all(s).done,
        a.with_all(s).entry == b.with_all(s).entry,
        a.with_all(s).quoted == b.with_all(s).quoted,
    decreases s.len(),
{
    if s.len() > 0 {
        later_entries_follow(a, b, s.drop_last(), front);
        let x = a.with_all(s.drop_last());
        let y = b.with_all(s.drop_last());
        assert(x.done.push(x.entry) =~= front + y.done.push(y.entry));
    }
}

} // verus!
