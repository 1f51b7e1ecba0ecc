//! JSON values.

use crate::text;
use crate::text::same;
use vstd::prelude::*;

verus! {

/// A JSON value. Numbers that are no 64 bit integers are kept as they were written.
#[derive(Debug)]
pub enum Json {
    Null,
    Bool(bool),
    Unsigned(u64),
    Negative(i64),
    Decimal(String),
    Text(String),
    List(Vec<Json>),
    Object(Vec<JsonField>),
}

/// A named member of a JSON object.
#[derive(Debug)]
pub struct JsonField {
    pub name: String,
    pub value: Json,
}

/// The mathematical form of a JSON value.
pub enum JsonView {
    Null,
    Bool(bool),
    Unsigned(u64),
    Negative(i64),
    Decimal(Seq<char>),
    Text(Seq<char>),
    List(Seq<JsonView>),
    Object(Seq<(Seq<char>, JsonView)>),
}

/// The view of a JSON value.
pub open spec fn json_view(j: Json) -> JsonView
    decreases j,
{
    match j {
        Json::Null => JsonView::Null,
        Json::Bool(b) => JsonView::Bool(b),
        Json::Unsigned(n) => JsonView::Unsigned(n),
        Json::Negative(n) => JsonView::Negative(n),
        Json::Decimal(s) => JsonView::Decimal(s@),
        Json::Text(s) => JsonView::Text(s@),
        Json::List(v) => JsonView::List(
            Seq::new(
                v@.len(),
                |i: int|
                    if 0 <= i < v@.len() {
                        json_view(v@[i])
                    } else {
                        JsonView::Null
                    },
            ),
        ),
        Json::Object(v) => JsonView::Object(
            Seq::new(
                v@.len(),
                |i: int|
                    if 0 <= i < v@.len() {
                        (v@[i].name@, json_view(v@[i].value))
                    } else {
                        (Seq::empty(), JsonView::Null)
                    },
            ),
        ),
    }
}

impl View for Json {
    type V = JsonView;

    open spec fn view(&self) -> JsonView {
        json_view(*self)
    }
}

/// The views of a list of JSON values.
pub open spec fn items_view(v: Seq<Json>) -> Seq<JsonView> {
    v.map_values(|j: Json| j@)
}

/// The view of a member.
pub open spec fn field_view(f: JsonField) -> (Seq<char>, JsonView) {
    (f.name@, f.value@)
}

/// The views of the members of an object.
pub open spec fn fields_view(v: Seq<JsonField>) -> Seq<(Seq<char>, JsonView)> {
    v.map_values(|f: JsonField| field_view(f))
}

/// A list has the views of its items.
pub proof fn list_view(v: Vec<Json>)
    ensures
        Json::List(v)@ == JsonView::List(items_view(v@)),
{
    match Json::List(v)@ {
        JsonView::List(s) => {
            assert(s =~= items_view(v@));
        },
        _ => {},
    }
}

/// An object has the views of its members.
pub proof fn object_view(v: Vec<JsonField>)
    ensures
        Json::Object(v)@ == JsonView::Object(fields_view(v@)),
{
    match Json::Object(v)@ {
        JsonView::Object(s) => {
            assert(s =~= fields_view(v@));
        },
        _ => {},
    }
}

/// The value of the first member with the given name.
pub open spec fn lookup(fields: Seq<(Seq<char>, JsonView)>, name: Seq<char>) -> Option<JsonView>
    decreases fields.len(),
{
    if fields.len() == 0 {
        None
    } else if fields[0].0 == name {
        Some(fields[0].1)
    } else {
        lookup(fields.drop_first(), name)
    }
}

/// The members with one of them set: the first member of that name gets the value, or a new
/// member comes last.
pub open spec fn with_field(
    fields: Seq<(Seq<char>, JsonView)>,
    name: Seq<char>,
    value: JsonView,
) -> Seq<(Seq<char>, JsonView)>
    decreases fields.len(),
{
    if fields.len() == 0 {
        seq![(name, value)]
    } else if fields[0].0 == name {
        seq![(name, value)] + fields.drop_first()
    } else {
        seq![fields[0]] + with_field(fields.drop_first(), name, value)
    }
}

/// The members without those of the given name.
pub open spec fn without_field(fields: Seq<(Seq<char>, JsonView)>, name: Seq<char>) -> Seq<
    (Seq<char>, JsonView),
>
    decreases fields.len(),
{
    if fields.len() == 0 {
        Seq::empty()
    } else if fields[0].0 == name {
        without_field(fields.drop_first(), name)
    } else {
        seq![fields[0]] + without_field(fields.drop_first(), name)
    }
}

impl JsonView {
    /// An object without members.
    pub open spec fn object() -> JsonView {
        JsonView::Object(Seq::empty())
    }

    /// The object with one more member at the end; a value that is no object is left alone.
    pub open spec fn with(self, name: Seq<char>, value: JsonView) -> JsonView {
        match self {
            JsonView::Object(fields) => JsonView::Object(fields.push((name, value))),
            _ => self,
        }
    }

    /// The object with one more text member.
    pub open spec fn with_text(self, name: Seq<char>, value: Seq<char>) -> JsonView {
        self.with(name, JsonView::Text(value))
    }

    /// The member of an object with the given name.
    pub open spec fn get(self, name: Seq<char>) -> Option<JsonView> {
        match self {
            JsonView::Object(fields) => lookup(fields, name),
            _ => None,
        }
    }

    /// The text, if the value is one.
    pub open spec fn as_text(self) -> Option<Seq<char>> {
        match self {
            JsonView::Text(s) => Some(s),
            _ => None,
        }
    }

    /// The truth value, if the value is one.
    pub open spec fn as_bool(self) -> Option<bool> {
        match self {
            JsonView::Bool(b) => Some(b),
            _ => None,
        }
    }

    /// The number, if the value is one that is not negative and fits 64 bits.
    pub open spec fn as_unsigned(self) -> Option<u64> {
        match self {
            JsonView::Unsigned(n) => Some(n),
            _ => None,
        }
    }

    /// The text of the member with the given name.
    pub open spec fn text_at(self, name: Seq<char>) -> Option<Seq<char>> {
        match self.get(name) {
            Some(v) => v.as_text(),
            None => None,
        }
    }

    /// The truth value of the member with the given name.
    pub open spec fn bool_at(self, name: Seq<char>) -> Option<bool> {
        match self.get(name) {
            Some(v) => v.as_bool(),
            None => None,
        }
    }

    /// The number of the member with the given name.
    pub open spec fn unsigned_at(self, name: Seq<char>) -> Option<u64> {
        match self.get(name) {
            Some(v) => v.as_unsigned(),
            None => None,
        }
    }
}

/// A member that was set is found with its value; all others are as before.
pub proof fn with_field_sets_one(
    fields: Seq<(Seq<char>, JsonView)>,
    name: Seq<char>,
    value: JsonView,
    other: Seq<char>,
)
    ensures
        lookup(with_field(fields, name, value), other) == if other == name {
            Some(value)
        } else {
            lookup(fields, other)
        },
    decreases fields.len(),
{
    let after = with_field(fields, name, value);
    if fields.len() == 0 {
        assert(after[0] == (name, value));
        assert(after.drop_first() =~= Seq::<(Seq<char>, JsonView)>::empty());
        assert(lookup(after.drop_first(), other) is None);
    } else if fields[0].0 == name {
        assert(after.drop_first() =~= fields.drop_first());
    } else {
        with_field_sets_one(fields.drop_first(), name, value, other);
        assert(after.drop_first() =~= with_field(fields.drop_first(), name, value));
    }
}

/// A member that was removed is not found any more; all others are as before.
pub proof fn without_field_removes_one(
    fields: Seq<(Seq<char>, JsonView)>,
    name: Seq<char>,
    other: Seq<char>,
)
    ensures
        lookup(without_field(fields, name), other) == if other == name {
            None
        } else {
            lookup(fields, other)
        },
    decreases fields.len(),
{
    if fields.len() > 0 {
        without_field_removes_one(fields.drop_first(), name, other);
        if fields[0].0 != name {
            let after = without_field(fields, name);
            assert(after.drop_first() =~= without_field(fields.drop_first(), name));
        }
    }
}

/// A member that was added at the end is found where no member of that name came before; all
/// members that were there are found as before.
pub broadcast proof fn added_members_are_found(
    j: JsonView,
    name: Seq<char>,
    value: JsonView,
    other: Seq<char>,
)
    requires
        j is Object,
    ensures
        #[trigger] j.with(name, value).get(other) == match j.get(other) {
            Some(v) => Some(v),
            None => if other == name {
                Some(value)
            } else {
                None
            },
        },
{
    last_member_is_found(j->Object_0, name, value, other);
}

proof fn last_member_is_found(
    fields: Seq<(Seq<char>, JsonView)>,
    name: Seq<char>,
    value: JsonView,
    other: Seq<char>,
)
    ensures
        lookup(fields.push((name, value)), other) == match lookup(fields, other) {
            Some(v) => Some(v),
            None => if other == name {
                Some(value)
            } else {
                None
            },
        },
    decreases fields.len(),
{
    let after = fields.push((name, value));
    if fields.len() == 0 {
        assert(after.drop_first() =~= Seq::<(Seq<char>, JsonView)>::empty());
        assert(lookup(after.drop_first(), other) is None);
    } else {
        assert(after.drop_first() =~= fields.drop_first().push((name, value)));
        last_member_is_found(fields.drop_first(), name, value, other);
    }
}

impl Json {
    /// A text value.
    pub fn text(s: &str) -> (r: Json)
        ensures
            r@ == JsonView::Text(s@),
    {
        Json::Text(s.to_owned())
    }

    /// A text value, or null.
    pub fn text_opt(o: &Option<String>) -> (r: Json)
        ensures
            r@ == opt_text_view(text::view_opt(*o)),
    {
        match o {
            Some(s) => Json::Text(s.clone()),
            None => Json::Null,
        }
    }

    /// A truth value, or null.
    pub fn bool_opt(o: Option<bool>) -> (r: Json)
        ensures
            r@ == opt_bool_view(o),
    {
        match o {
            Some(b) => Json::Bool(b),
            None => Json::Null,
        }
    }

    /// A number, or null.
    pub fn unsigned_opt(o: Option<u64>) -> (r: Json)
        ensures
            r@ == opt_unsigned_view(o),
    {
        match o {
            Some(n) => Json::Unsigned(n),
            None => Json::Null,
        }
    }

    /// An object without members.
    pub fn object() -> (r: Json)
        ensures
            r@ == JsonView::object(),
    {
        let v: Vec<JsonField> = Vec::new();
        proof {
            object_view(v);
            assert(fields_view(v@) =~= Seq::<(Seq<char>, JsonView)>::empty());
        }
        Json::Object(v)
    }

    /// A list of texts.
    pub fn texts(items: &[&'static str]) -> (r: Json)
        ensures
            r@ == JsonView::List(items@.map_values(|s: &'static str| JsonView::Text(s@))),
    {
        let mut v: Vec<Json> = Vec::new();
        let mut i: usize = 0;
        while i < items.len()
            invariant
                i <= items@.len(),
                v@.len() == i,
                forall|j: int| 0 <= j < i ==> (#[trigger] v@[j])@ == JsonView::Text(items@[j]@),
            decreases items@.len() - i,
        {
            v.push(Json::text(items[i]));
            i += 1;
        }
        proof {
            list_view(v);
            assert(items_view(v@) =~= items@.map_values(|s: &'static str| JsonView::Text(s@)));
        }
        Json::List(v)
    }

    /// A list.
    pub fn list(v: Vec<Json>) -> (r: Json)
        ensures
            r@ == JsonView::List(items_view(v@)),
    {
        proof {
            list_view(v);
        }
        Json::List(v)
    }

    /// The object with one more member at the end; a value that is no object is left alone.
    pub fn with(self, name: &str, value: Json) -> (r: Json)
        ensures
            r@ == self@.with(name@, value@),
    {
        match self {
            Json::Object(v) => {
                let mut v = v;
                let ghost before = v;
                proof {
                    object_view(v);
                }
                v.push(JsonField { name: name.to_owned(), value });
                proof {
                    object_view(v);
                    assert(fields_view(v@) =~= fields_view(before@).push((name@, value@)));
                }
                Json::Object(v)
            },
            other => other,
        }
    }

    /// The object with one more text member.
    pub fn with_text(self, name: &str, value: &str) -> (r: Json)
        ensures
            r@ == self@.with_text(name@, value@),
    {
        self.with(name, Json::text(value))
    }

    /// The member of an object with the given name.
    pub fn get(&self, name: &str) -> (r: Option<&Json>)
        ensures
            match r {
                Some(v) => self@.get(name@) == Some(v@),
                None => self@.get(name@) is None,
            },
    {
        match self {
            Json::Object(v) => {
                proof {
                    object_view(*v);
                }
                find_field(v.as_slice(), name)
            },
            _ => None,
        }
    }

    /// The text, if the value is one.
    pub fn as_str(&self) -> (r: Option<&str>)
        ensures
            match r {
                Some(s) => self@.as_text() == Some(s@),
                None => self@.as_text() is None,
            },
    {
        match self {
            Json::Text(s) => Some(s.as_str()),
            _ => None,
        }
    }

    /// The text of the member with the given name.
    pub fn text_at(&self, name: &str) -> (r: Option<&str>)
        ensures
            match r {
                Some(s) => self@.text_at(name@) == Some(s@),
                None => self@.text_at(name@) is None,
            },
    {
        match self.get(name) {
            Some(v) => v.as_str(),
            None => None,
        }
    }

    /// The truth value of the member with the given name.
    pub fn bool_at(&self, name: &str) -> (r: Option<bool>)
        ensures
            r == self@.bool_at(name@),
    {
        match self.get(name) {
            Some(Json::Bool(b)) => Some(*b),
            _ => None,
        }
    }

    /// The number of the member with the given name.
    pub fn unsigned_at(&self, name: &str) -> (r: Option<u64>)
        ensures
            r == self@.unsigned_at(name@),
    {
        match self.get(name) {
            Some(Json::Unsigned(n)) => Some(*n),
            _ => None,
        }
    }

    /// Whether the value is an object.
    pub fn is_object(&self) -> (r: bool)
        ensures
            r == (self@ is Object),
    {
        match self {
            Json::Object(_) => true,
            _ => false,
        }
    }

    /// A copy of the value.
    pub fn duplicate(&self) -> (r: Json)
        ensures
            r@ == self@,
        decreases *self,
    {
        match self {
            Json::Null => Json::Null,
            Json::Bool(b) => Json::Bool(*b),
            Json::Unsigned(n) => Json::Unsigned(*n),
            Json::Negative(n) => Json::Negative(*n),
            Json::Decimal(s) => Json::Decimal(s.clone()),
            Json::Text(s) => Json::Text(s.clone()),
            Json::List(v) => {
                let mut out: Vec<Json> = Vec::new();
                let mut i: usize = 0;
                while i < v.len()
                    invariant
                        i <= v@.len(),
                        *self == Json::List(*v),
                        out@.len() == i,
                        forall|j: int| 0 <= j < i ==> (#[trigger] out@[j])@ == v@[j]@,
                    decreases v@.len() - i,
                {
                    assert(*v == self->List_0);
                    assert(decreases_to!(*self => self->List_0));
                    assert(decreases_to!(*v => v@));
                    assert(decreases_to!(v@ => v@[i as int]));
                    out.push(v[i].duplicate());
                    i += 1;
                }
                proof {
                    list_view(*v);
                    list_view(out);
                    assert(items_view(out@) =~= items_view(v@));
                }
                Json::List(out)
            },
            Json::Object(v) => {
                let mut out: Vec<JsonField> = Vec::new();
                let mut i: usize = 0;
                while i < v.len()
                    invariant
                        i <= v@.len(),
                        *self == Json::Object(*v),
                        out@.len() == i,
                        forall|j: int| 0 <= j < i ==> field_view(#[trigger] out@[j]) == field_view(v@[j]),
                    decreases v@.len() - i,
                {
                    assert(*v == self->Object_0);
                    assert(decreases_to!(*self => self->Object_0));
                    assert(decreases_to!(*v => v@));
                    assert(decreases_to!(v@ => v@[i as int]));
                    assert(decreases_to!(v@[i as int] => v@[i as int].value));
                    out.push(
                        JsonField { name: v[i].name.clone(), value: v[i].value.duplicate() },
                    );
                    i += 1;
                }
                proof {
                    object_view(*v);
                    object_view(out);
                    assert(fields_view(out@) =~= fields_view(v@));
                }
                Json::Object(out)
            },
        }
    }
}

/// An optional text as a value.
pub open spec fn opt_text_view(o: Option<Seq<char>>) -> JsonView {
    match o {
        Some(s) => JsonView::Text(s),
        None => JsonView::Null,
    }
}

/// An optional truth value as a value.
pub open spec fn opt_bool_view(o: Option<bool>) -> JsonView {
    match o {
        Some(b) => JsonView::Bool(b),
        None => JsonView::Null,
    }
}

/// An optional number as a value.
pub open spec fn opt_unsigned_view(o: Option<u64>) -> JsonView {
    match o {
        Some(n) => JsonView::Unsigned(n),
        None => JsonView::Null,
    }
}

/// The value of the first member with the given name.
pub fn find_field<'a>(v: &'a [JsonField], name: &str) -> (r: Option<&'a Json>)
    ensures
        match r {
            Some(j) => lookup(fields_view(v@), name@) == Some(j@),
            None => lookup(fields_view(v@), name@) is None,
        },
{
    let ghost all = fields_view(v@);
    let mut i: usize = 0;
    assert(all.skip(0) =~= all);
    while i < v.len()
        invariant
            i <= v@.len(),
            all == fields_view(v@),
            lookup(all, name@) == lookup(all.skip(i as int), name@),
        decreases v@.len() - i,
    {
        assert(all.skip(i as int)[0] == field_view(v@[i as int]));
        if same(v[i].name.as_str(), name) {
            return Some(&v[i].value);
        }
        assert(all.skip(i as int).drop_first() =~= all.skip(i as int + 1));
        i += 1;
    }
    None
}

/// Sets a member: the first one of that name, or a new one at the end.
pub fn set_field(v: &mut Vec<JsonField>, name: &str, value: Json)
    ensures
        fields_view(final(v)@) == with_field(fields_view(old(v)@), name@, value@),
{
    let ghost all = fields_view(v@);
    let ghost goal = with_field(all, name@, value@);
    let mut i: usize = 0;
    assert(all.skip(0) =~= all);
    assert(all.take(0) + goal =~= goal);
    while i < v.len()
        invariant
            i <= v@.len(),
            v == old(v),
            all == fields_view(v@),
            goal == with_field(all, name@, value@),
            goal == all.take(i as int) + with_field(all.skip(i as int), name@, value@),
        decreases v@.len() - i,
    {
        assert(all.skip(i as int)[0] == field_view(v@[i as int]));
        if same(v[i].name.as_str(), name) {
            let field = JsonField { name: name.to_owned(), value };
            v[i] = field;
            assert(fields_view(v@) =~= goal);
            return ;
        }
        assert(all.skip(i as int).drop_first() =~= all.skip(i as int + 1));
        assert(all.take(i as int + 1) =~= all.take(i as int) + seq![all[i as int]]);
        assert(goal =~= all.take(i as int + 1) + with_field(all.skip(i as int + 1), name@, value@));
        i += 1;
    }
    v.push(JsonField { name: name.to_owned(), value });
    assert(fields_view(v@) =~= goal);
}

/// Removes the members of a name.
pub fn remove_field(v: Vec<JsonField>, name: &str) -> (r: Vec<JsonField>)
    ensures
        fields_view(r@) == without_field(fields_view(v@), name@),
{
    let mut v = v;
    let ghost all = fields_view(v@);
    let ghost whole = without_field(all, name@);
    let mut out: Vec<JsonField> = Vec::new();
    assert(fields_view(out@) + whole =~= whole);
    while v.len() > 0
        invariant
            fields_view(out@) + without_field(fields_view(v@), name@) == whole,
        decreases v@.len(),
    {
        let ghost before = fields_view(v@);
        let ghost done = fields_view(out@);
        let field = v.remove(0);
        assert(fields_view(v@) =~= before.drop_first());
        assert(before[0] == field_view(field));
        if !same(field.name.as_str(), name) {
            let ghost fv = field_view(field);
            out.push(field);
            assert(fields_view(out@) =~= done.push(fv));
            assert(done + (seq![fv] + without_field(before.drop_first(), name@)) =~= done.push(fv)
                + without_field(before.drop_first(), name@));
        }
    }
    assert(fields_view(out@) + Seq::<(Seq<char>, JsonView)>::empty() =~= fields_view(out@));
    out
}

/// A value of the `serde_json` crate.
#[verifier::external_type_specification]
#[verifier::external_body]
pub struct ExJsonValue(serde_json::Value);

/// What a `serde_json::Value` holds.
pub uninterp spec fn value_view(value: serde_json::Value) -> JsonView;

/// What is left of a value once a `serde_json::Value` holds it: the members of an object are
/// sorted, each name is there once, and a number that is no 64 bit integer is rounded.
pub uninterp spec fn json_stored(value: JsonView) -> JsonView;

/// The outcome of `serde_json::from_str` on a text: the value, or what is wrong.
pub uninterp spec fn json_read(text: Seq<char>) -> Result<JsonView, Seq<char>>;

/// The outcome of `serde_json::from_slice` on bytes: the value, or what is wrong.
pub uninterp spec fn json_read_bytes(bytes: Seq<u8>) -> Result<JsonView, Seq<char>>;

/// The text that `serde_json::to_string` makes of a value.
pub uninterp spec fn json_compact(value: JsonView) -> Seq<char>;

/// The text that `serde_json::to_string_pretty` makes of a value.
pub uninterp spec fn json_pretty(value: JsonView) -> Seq<char>;

/// Whether no two members have the same name.
pub open spec fn distinct_names(fields: Seq<(Seq<char>, JsonView)>) -> bool {
    forall|i: int, j: int|
        #![trigger fields[i], fields[j]]
        0 <= i < j < fields.len() ==> fields[i].0 != fields[j].0
}

/// Converts a `serde_json::Value`, one variant at a time; the result holds what the value
/// holds. A number that is no 64 bit integer is kept as it is written.
#[verifier::external_body]
fn from_value(value: serde_json::Value) -> (r: Json)
    ensures
        r@ == value_view(value),
{
    match value {
        serde_json::Value::Null => Json::Null,
        serde_json::Value::Bool(b) => Json::Bool(b),
        serde_json::Value::Number(n) => match (n.as_u64(), n.as_i64()) {
            (Some(u), _) => Json::Unsigned(u),
            (None, Some(i)) => Json::Negative(i),
            (None, None) => Json::Decimal(n.to_string()),
        },
        serde_json::Value::String(s) => Json::Text(s),
        serde_json::Value::Array(v) => Json::List(v.into_iter().map(from_value).collect()),
        serde_json::Value::Object(m) => Json::Object(
            m.into_iter().map(|(name, v)| JsonField { name, value: from_value(v) }).collect(),
        ),
    }
}

/// Converts to a `serde_json::Value`, one variant at a time. Texts, truth values and 64 bit
/// integers stay as they are, and so does what is found under a name, as long as the names
/// of an object are distinct; the name says what becomes of the rest.
#[verifier::external_body]
fn to_value(j: &Json) -> (r: serde_json::Value)
    ensures
        value_view(r) == json_stored(j@),
        (j@ is Null || j@ is Bool || j@ is Unsigned || j@ is Text) ==> value_view(r) == j@,
        j@ matches JsonView::Negative(n) ==> n < 0 ==> value_view(r) == j@,
        j@ matches JsonView::List(items) ==> value_view(r) == JsonView::List(
            items.map_values(|v: JsonView| json_stored(v)),
        ),
        j@ matches JsonView::Object(fields) ==> (distinct_names(fields) ==> forall|name: Seq<char>|
            #![trigger value_view(r).get(name)]
            value_view(r).get(name) == match lookup(fields, name) {
                Some(v) => Some(json_stored(v)),
                None => None,
            }),
{
    match j {
        Json::Null => serde_json::Value::Null,
        Json::Bool(b) => serde_json::Value::Bool(*b),
        Json::Unsigned(n) => serde_json::Value::from(*n),
        Json::Negative(n) => serde_json::Value::from(*n),
        Json::Decimal(s) => s.parse().map(serde_json::Value::Number).unwrap_or_default(),
        Json::Text(s) => serde_json::Value::String(s.clone()),
        Json::List(v) => serde_json::Value::Array(v.iter().map(to_value).collect()),
        Json::Object(v) => v.iter().map(|f| (f.name.clone(), to_value(&f.value))).collect(),
    }
}

/// `serde_json::from_str` into a `serde_json::Value`; the name stands for its outcome.
#[verifier::external_body]
fn read_value(text: &str) -> (r: Result<serde_json::Value, String>)
    ensures
        json_read(text@) == match r {
            Ok(v) => Ok::<JsonView, Seq<char>>(value_view(v)),
            Err(e) => Err(e@),
        },
{
    serde_json::from_str::<serde_json::Value>(text).map_err(|error| error.to_string())
}

/// `serde_json::from_slice` into a `serde_json::Value`; the name stands for its outcome.
#[verifier::external_body]
fn read_value_bytes(bytes: &[u8]) -> (r: Result<serde_json::Value, String>)
    ensures
        json_read_bytes(bytes@) == match r {
            Ok(v) => Ok::<JsonView, Seq<char>>(value_view(v)),
            Err(e) => Err(e@),
        },
{
    serde_json::from_slice::<serde_json::Value>(bytes).map_err(|error| error.to_string())
}

/// `serde_json::Value::to_string`, the compact form; the name stands for the text.
#[verifier::external_body]
fn write_value(value: &serde_json::Value) -> (r: String)
    ensures
        r@ == json_compact(value_view(*value)),
{
    value.to_string()
}

/// `serde_json::to_string_pretty`, which cannot fail on a `serde_json::Value`; the name stands
/// for the text.
#[verifier::external_body]
fn write_value_pretty(value: &serde_json::Value) -> (r: String)
    ensures
        r@ == json_pretty(value_view(*value)),
{
    serde_json::to_string_pretty(value).unwrap_or_default()
}

/// The outcome of reading a JSON text.
pub open spec fn read_view(r: Result<Json, String>) -> Result<JsonView, Seq<char>> {
    match r {
        Ok(j) => Ok(j@),
        Err(e) => Err(e@),
    }
}

/// Reads a JSON text.
pub fn parse_json(text: &str) -> (r: Result<Json, String>)
    ensures
        read_view(r) == json_read(text@),
{
    match read_value(text) {
        Ok(value) => Ok(from_value(value)),
        Err(error) => Err(error),
    }
}

/// Reads JSON bytes.
pub fn parse_json_bytes(bytes: &[u8]) -> (r: Result<Json, String>)
    ensures
        read_view(r) == json_read_bytes(bytes@),
{
    match read_value_bytes(bytes) {
        Ok(value) => Ok(from_value(value)),
        Err(error) => Err(error),
    }
}

/// The text of a value, without white space.
pub open spec fn compact_text(value: JsonView) -> Seq<char> {
    json_compact(json_stored(value))
}

/// The text of a value, indented.
pub open spec fn pretty_text(value: JsonView) -> Seq<char> {
    json_pretty(json_stored(value))
}

impl Json {
    /// Writes the value without white space.
    pub fn to_compact(&self) -> (r: String)
        ensures
            r@ == compact_text(self@),
    {
        write_value(&to_value(self))
    }

    /// Writes the value indented.
    pub fn to_pretty(&self) -> (r: String)
        ensures
            r@ == pretty_text(self@),
    {
        write_value_pretty(&to_value(self))
    }
}

} // verus!
