//! Laws of values and of the entries of a journal.

use crate::journal;
use crate::journal::{note, note_at, Record};
use crate::json;
use crate::json::{find_field, remove_field, set_field, Json, JsonField, JsonView};
use crate::text;
use vstd::prelude::*;

verus! {

/// A member that is added is found by its name, and is of the type that it was added with; a type
/// that does not fit finds nothing.
pub proof fn members_are_found_by_name_and_type(
    empty: Json,
    name: &str,
    value: Json,
    one: Json,
    found: Option<&Json>,
    as_text: Option<&str>,
    as_bool: Option<bool>,
    as_number: Option<u64>,
)
    requires
        call_ensures(Json::object, (), empty),
        call_ensures(Json::with, (empty, name, value), one),
        call_ensures(Json::get, (&one, name), found),
        call_ensures(Json::text_at, (&one, name), as_text),
        call_ensures(Json::bool_at, (&one, name), as_bool),
        call_ensures(Json::unsigned_at, (&one, name), as_number),
    ensures
        found matches Some(v) && v@ == value@,
        value@ matches JsonView::Text(s) ==> (as_text matches Some(t) && t@ == s) && as_bool is None
            && as_number is None,
        value@ matches JsonView::Bool(b) ==> as_bool == Some(b) && as_text is None && as_number
            is None,
        value@ matches JsonView::Unsigned(n) ==> as_number == Some(n) && as_text is None && as_bool
            is None,
        value@ is Null || value@ is List || value@ is Object || value@ is Negative || value@
            is Decimal ==> as_text is None && as_bool is None && as_number is None,
{
    reveal_with_fuel(json::lookup, 2);
    let f = Seq::<(Seq<char>, JsonView)>::empty().push((name@, value@));
    assert(f[0] == (name@, value@));
}

/// Nothing is found in an empty object or in anything that is none.
pub proof fn nothing_is_found_elsewhere(
    j: Json,
    name: &str,
    found: Option<&Json>,
    is_object: bool,
    empty: Json,
    in_empty: Option<&Json>,
)
    requires
        call_ensures(Json::get, (&j, name), found),
        call_ensures(Json::is_object, (&j,), is_object),
        call_ensures(Json::object, (), empty),
        call_ensures(Json::get, (&empty, name), in_empty),
    ensures
        is_object <==> j@ is Object,
        !is_object ==> found is None,
        in_empty is None,
{
}

/// Values are made from what they hold, and a missing one is null.
pub proof fn values_hold_what_they_are_made_of(
    s: &str,
    text_value: Json,
    text: Option<String>,
    flag: Option<bool>,
    number: Option<u64>,
    t: Json,
    b: Json,
    n: Json,
    back: Option<&str>,
    copy: Json,
)
    requires
        call_ensures(Json::text, (s,), text_value),
        call_ensures(Json::text_opt, (&text,), t),
        call_ensures(Json::bool_opt, (flag,), b),
        call_ensures(Json::unsigned_opt, (number,), n),
        call_ensures(Json::as_str, (&text_value,), back),
        call_ensures(Json::duplicate, (&text_value,), copy),
    ensures
        text_value@ == JsonView::Text(s@),
        back matches Some(x) && x@ == s@,
        copy@ == text_value@,
        text is None ==> t@ is Null,
        text matches Some(x) ==> t@ == JsonView::Text(x@),
        flag is None ==> b@ is Null,
        flag matches Some(x) ==> b@ == JsonView::Bool(x),
        number is None ==> n@ is Null,
        number matches Some(x) ==> n@ == JsonView::Unsigned(x),
{
}

/// A list holds its items in their order.
pub proof fn lists_hold_their_items(
    v: Vec<Json>,
    r: Json,
    names: &[&'static str],
    texts: Json,
    i: int,
)
    requires
        call_ensures(Json::list, (v,), r),
        call_ensures(Json::texts, (names,), texts),
    ensures
        r@ matches JsonView::List(items) && items.len() == v@.len() && (0 <= i < v@.len()
            ==> items[i] == v@[i]@),
        texts@ matches JsonView::List(items) && items.len() == names@.len() && (0 <= i < names@.len()
            ==> items[i] == JsonView::Text(names@[i]@)),
{
}

/// A member that is set is found with its new value, one that is removed is not found, and the others
/// stay.
pub proof fn members_are_set_and_removed(
    v: &mut Vec<JsonField>,
    name: &str,
    other: &str,
    value: Json,
    unit: (),
    left: Vec<JsonField>,
    before: Option<&Json>,
    after: Option<&Json>,
    removed: Option<&Json>,
    old_slice: &[JsonField],
    new_slice: &[JsonField],
    left_slice: &[JsonField],
)
    requires
        old_slice@ == old(v)@ && new_slice@ == final(v)@ && left_slice@ == left@,
        call_ensures(set_field, (v, name, value), unit),
        call_ensures(remove_field, (*old(v), name), left),
        call_ensures(find_field, (old_slice, other), before),
        call_ensures(find_field, (new_slice, other), after),
        call_ensures(find_field, (left_slice, other), removed),
    ensures
        other@ == name@ ==> (after matches Some(x) && x@ == value@) && removed is None,
        other@ != name@ ==> found_view(after) == found_view(before) && found_view(removed)
            == found_view(before),
{
    json::with_field_sets_one(json::fields_view(old(v)@), name@, value@, other@);
    json::without_field_removes_one(json::fields_view(old(v)@), name@, other@);
}

/// The view of what was found.
pub open spec fn found_view(o: Option<&Json>) -> Option<JsonView> {
    match o {
        Some(j) => Some(j@),
        None => None,
    }
}

/// An entry of a journal is added at its end with what it says, and with a path if it names one.
pub proof fn entries_are_added_at_the_end(
    records: &mut Vec<Record>,
    others: &mut Vec<Record>,
    event: &str,
    path: &str,
    error: Option<String>,
    fields: Json,
    unit: (),
)
    requires
        call_ensures(note, (records, event, error, fields), unit),
        call_ensures(note_at, (others, event, path, error, fields), unit),
    ensures
        final(records)@.len() == old(records)@.len() + 1,
        final(records)@.last().event@ == event@,
        final(records)@.last().artifact_path is None,
        text::view_opt(final(records)@.last().error) == text::view_opt(error),
        final(records)@.last().fields@ == fields@,
        final(others)@.len() == old(others)@.len() + 1,
        final(others)@.last().event@ == event@,
        text::view_opt(final(others)@.last().artifact_path) == Some(path@),
        text::view_opt(final(others)@.last().error) == text::view_opt(error),
        final(others)@.last().fields@ == fields@,
{
    let a = journal::records_view(final(records)@);
    let b = journal::records_view(final(others)@);
    assert(a.len() == final(records)@.len());
    assert(b.len() == final(others)@.len());
    assert(journal::records_view(old(records)@).len() == old(records)@.len());
    assert(journal::records_view(old(others)@).len() == old(others)@.len());
    assert(a.last() == final(records)@.last()@);
    assert(b.last() == final(others)@.last()@);
}

} // verus!
