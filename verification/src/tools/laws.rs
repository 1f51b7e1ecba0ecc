//! Laws of the tool descriptors.

use crate::json;
use crate::json::JsonView;
use crate::tools::registry;
use vstd::prelude::*;

verus! {

proof fn names_differ()
    ensures
        "type"@ != "properties"@,
        "type"@ != "required"@,
        "properties"@ != "required"@,
        "database"@ != "session_id"@,
{
    reveal_strlit("type");
    reveal_strlit("properties");
    reveal_strlit("required");
    reveal_strlit("database");
    reveal_strlit("session_id");
    assert("type"@.len() == 4);
    assert("properties"@.len() == 10);
    assert("required"@.len() == 8);
    assert("database"@.len() == 8);
    assert("session_id"@.len() == 10);
}

proof fn set_again(fields: Seq<(Seq<char>, JsonView)>, name: Seq<char>, value: JsonView)
    requires
        json::lookup(fields, name) == Some(value),
    ensures
        json::with_field(fields, name, value) == fields,
    decreases fields.len(),
{
    if fields[0].0 == name {
        assert(json::with_field(fields, name, value) =~= fields);
    } else {
        set_again(fields.drop_first(), name, value);
        assert(json::with_field(fields, name, value) =~= fields);
    }
}

proof fn remove_again(fields: Seq<(Seq<char>, JsonView)>, name: Seq<char>)
    requires
        json::lookup(fields, name) is None,
    ensures
        json::without_field(fields, name) == fields,
    decreases fields.len(),
{
    if fields.len() > 0 {
        remove_again(fields.drop_first(), name);
        assert(json::without_field(fields, name) =~= fields);
    } else {
        assert(json::without_field(fields, name) =~= fields);
    }
}

proof fn database_gone(items: Seq<JsonView>)
    ensures
        !registry::without_database(items).contains(JsonView::Text("database"@)),
    decreases items.len(),
{
    if items.len() > 0 {
        database_gone(items.drop_last());
        let rest = registry::without_database(items.drop_last());
        let all = registry::without_database(items);
        if all.contains(JsonView::Text("database"@)) {
            let k = choose|k: int| 0 <= k < all.len() && all[k] == JsonView::Text("database"@);
            if k < rest.len() {
                assert(rest[k] == all[k]);
            }
        }
    }
}

proof fn database_absent(items: Seq<JsonView>)
    requires
        !items.contains(JsonView::Text("database"@)),
    ensures
        registry::without_database(items) == items,
    decreases items.len(),
{
    if items.len() > 0 {
        let rest = items.drop_last();
        assert(!rest.contains(JsonView::Text("database"@))) by {
            if rest.contains(JsonView::Text("database"@)) {
                let k = choose|k: int| 0 <= k < rest.len() && rest[k] == JsonView::Text("database"@);
                assert(items[k] == rest[k]);
            }
        }
        database_absent(rest);
        assert(items[items.len() - 1] == items.last());
        assert(rest.push(items.last()) =~= items);
    } else {
        assert(registry::without_database(items) =~= items);
    }
}

proof fn required_facts(items: Seq<JsonView>)
    ensures
        registry::required_with_session(items).contains(JsonView::Text("session_id"@)),
        !registry::required_with_session(items).contains(JsonView::Text("database"@)),
        registry::required_with_session(registry::required_with_session(items))
            == registry::required_with_session(items),
{
    names_differ();
    database_gone(items);
    let rest = registry::without_database(items);
    let all = registry::required_with_session(items);
    if !rest.contains(JsonView::Text("session_id"@)) {
        assert(all[rest.len() as int] == JsonView::Text("session_id"@));
        if all.contains(JsonView::Text("database"@)) {
            let k = choose|k: int| 0 <= k < all.len() && all[k] == JsonView::Text("database"@);
            assert(rest[k] == all[k]);
        }
    }
    database_absent(all);
}

/// Every backend tool is offered as one that takes a session and no backend database: the
/// schema is an object schema, the session is a required property, and the database is
/// neither a property nor required.
pub proof fn backend_tools_take_a_session(schema: JsonView)
    ensures
        ({
            let seen = registry::with_session_argument(schema);
            &&& seen.get("type"@) == Some(JsonView::Text("object"@))
            &&& seen.get("properties"@) matches Some(JsonView::Object(properties))
            &&& json::lookup(properties, "session_id"@) == Some(registry::session_property())
            &&& json::lookup(properties, "database"@) is None
            &&& seen.get("required"@) matches Some(JsonView::List(required))
            &&& required.contains(JsonView::Text("session_id"@))
            &&& !required.contains(JsonView::Text("database"@))
        }),
{
    names_differ();
    let base = registry::members_of(Some(schema));
    let object = JsonView::Text("object"@);
    let kind = json::with_field(base, "type"@, object);
    let old_properties = registry::members_of(json::lookup(kind, "properties"@));
    let cleaned = json::without_field(old_properties, "database"@);
    let properties = json::with_field(cleaned, "session_id"@, registry::session_property());
    json::without_field_removes_one(old_properties, "database"@, "database"@);
    json::with_field_sets_one(
        cleaned,
        "session_id"@,
        registry::session_property(),
        "session_id"@,
    );
    json::with_field_sets_one(cleaned, "session_id"@, registry::session_property(), "database"@);
    let pv = JsonView::Object(properties);
    let second = json::with_field(kind, "properties"@, pv);
    let items = registry::items_of(json::lookup(second, "required"@));
    let rv = JsonView::List(registry::required_with_session(items));
    required_facts(items);
    json::with_field_sets_one(second, "required"@, rv, "required"@);
    json::with_field_sets_one(second, "required"@, rv, "properties"@);
    json::with_field_sets_one(second, "required"@, rv, "type"@);
    json::with_field_sets_one(kind, "properties"@, pv, "properties"@);
    json::with_field_sets_one(kind, "properties"@, pv, "type"@);
    json::with_field_sets_one(base, "type"@, object, "type"@);
}

/// Doing it twice is the same as doing it once.
pub proof fn session_argument_is_added_once(schema: JsonView)
    ensures
        registry::with_session_argument(registry::with_session_argument(schema))
            == registry::with_session_argument(schema),
{
    names_differ();
    backend_tools_take_a_session(schema);
    let seen = registry::with_session_argument(schema);
    let fields = registry::members_of(Some(seen));
    set_again(fields, "type"@, JsonView::Text("object"@));
    let properties = registry::members_of(json::lookup(fields, "properties"@));
    remove_again(properties, "database"@);
    set_again(properties, "session_id"@, registry::session_property());
    set_again(fields, "properties"@, JsonView::Object(properties));
    let required = registry::items_of(json::lookup(fields, "required"@));
    database_absent(required);
    assert(registry::required_with_session(required) == required);
    set_again(fields, "required"@, JsonView::List(required));
}

} // verus!
