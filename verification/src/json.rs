//! A JSON value model of the library's own, with its mathematical view.
use vstd::prelude::*;

verus! {

/// A JSON document as the library builds and reads it.
/// Objects keep their members in order; numbers keep their decimal text.
#[derive(Debug)]
pub enum JsonValue {
    Null,
    Bool(bool),
    Number(String),
    Str(String),
    Array(Vec<JsonValue>),
    Object(Vec<(String, JsonValue)>),
}

/// Mathematical view of a `JsonValue`.
pub enum JsonView {
    Null,
    Bool(bool),
    Number(Seq<char>),
    Str(Seq<char>),
    Array(Seq<JsonView>),
    Object(Seq<(Seq<char>, JsonView)>),
}

pub open spec fn json_seq_view(s: Seq<JsonValue>) -> Seq<JsonView>
    decreases s, 1int,
{
    if s.len() == 0 {
        Seq::empty()
    } else {
        json_seq_view(s.drop_last()).push(json_view(s.last()))
    }
}

pub open spec fn json_members_view(s: Seq<(String, JsonValue)>) -> Seq<(Seq<char>, JsonView)>
    decreases s, 1int,
{
    if s.len() == 0 {
        Seq::empty()
    } else {
        json_members_view(s.drop_last()).push((s.last().0@, json_view(s.last().1)))
    }
}

pub open spec fn json_view(v: JsonValue) -> JsonView
    decreases v, 0int,
{
    match v {
        JsonValue::Null => JsonView::Null,
        JsonValue::Bool(b) => JsonView::Bool(b),
        JsonValue::Number(n) => JsonView::Number(n@),
        JsonValue::Str(s) => JsonView::Str(s@),
        JsonValue::Array(a) => JsonView::Array(json_seq_view(a@)),
        JsonValue::Object(m) => JsonView::Object(json_members_view(m@)),
    }
}

impl View for JsonValue {
    type V = JsonView;

    open spec fn view(&self) -> JsonView {
        json_view(*self)
    }
}

/// The view of an object's members is taken member by member.
pub proof fn lemma_members_view_index(s: Seq<(String, JsonValue)>, j: int)
    requires
        0 <= j < s.len(),
    ensures
        json_members_view(s).len() == s.len(),
        json_members_view(s)[j] == (s[j].0@, json_view(s[j].1)),
    decreases s.len(),
{
    if j < s.len() - 1 {
        lemma_members_view_index(s.drop_last(), j);
    } else {
        lemma_members_view_len(s.drop_last());
    }
}

pub proof fn lemma_members_view_len(s: Seq<(String, JsonValue)>)
    ensures
        json_members_view(s).len() == s.len(),
    decreases s.len(),
{
    if s.len() > 0 {
        lemma_members_view_len(s.drop_last());
    }
}

pub proof fn lemma_seq_view_index(s: Seq<JsonValue>, j: int)
    requires
        0 <= j < s.len(),
    ensures
        json_seq_view(s).len() == s.len(),
        json_seq_view(s)[j] == json_view(s[j]),
    decreases s.len(),
{
    if j < s.len() - 1 {
        lemma_seq_view_index(s.drop_last(), j);
    } else {
        lemma_seq_view_len(s.drop_last());
    }
}

pub proof fn lemma_seq_view_len(s: Seq<JsonValue>)
    ensures
        json_seq_view(s).len() == s.len(),
    decreases s.len(),
{
    if s.len() > 0 {
        lemma_seq_view_len(s.drop_last());
    }
}

/// The member of `m` at `key`: the first one with that key, as in a lookup.
pub open spec fn members_get(m: Seq<(Seq<char>, JsonView)>, key: Seq<char>) -> Option<JsonView>
    decreases m.len(),
{
    if m.len() == 0 {
        None
    } else if m[0].0 == key {
        Some(m[0].1)
    } else {
        members_get(m.drop_first(), key)
    }
}

/// What `value.get(key)` finds: a member of an object, `None` for anything else.
pub open spec fn json_get(v: JsonView, key: Seq<char>) -> Option<JsonView> {
    match v {
        JsonView::Object(m) => members_get(m, key),
        _ => None,
    }
}

/// What `value.get(key).and_then(|v| v.as_str())` finds.
pub open spec fn json_get_str(v: JsonView, key: Seq<char>) -> Option<Seq<char>> {
    match json_get(v, key) {
        Some(JsonView::Str(s)) => Some(s),
        _ => None,
    }
}

pub proof fn lemma_members_get_first(m: Seq<(Seq<char>, JsonView)>, key: Seq<char>, i: int)
    requires
        0 <= i < m.len(),
        m[i].0 == key,
        forall|j: int| 0 <= j < i ==> m[j].0 != key,
    ensures
        members_get(m, key) == Some(m[i].1),
    decreases i,
{
    if i > 0 {
        lemma_members_get_first(m.drop_first(), key, i - 1);
    }
}

pub proof fn lemma_members_get_none(m: Seq<(Seq<char>, JsonView)>, key: Seq<char>)
    requires
        forall|j: int| 0 <= j < m.len() ==> m[j].0 != key,
    ensures
        members_get(m, key) == None::<JsonView>,
    decreases m.len(),
{
    if m.len() > 0 {
        lemma_members_get_none(m.drop_first(), key);
    }
}

/// The view of an object's members, member by member.
pub proof fn lemma_members_view_map(s: Seq<(String, JsonValue)>)
    ensures
        json_members_view(s) == s.map_values(|p: (String, JsonValue)| (p.0@, p.1@)),
{
    lemma_members_view_len(s);
    assert forall|j: int| 0 <= j < s.len() implies #[trigger] json_members_view(s)[j] == s.map_values(
        |p: (String, JsonValue)| (p.0@, p.1@),
    )[j] by {
        lemma_members_view_index(s, j);
    }
    assert(json_members_view(s) =~= s.map_values(|p: (String, JsonValue)| (p.0@, p.1@)));
}

/// The view of an array's items, item by item.
pub proof fn lemma_seq_view_map(s: Seq<JsonValue>)
    ensures
        json_seq_view(s) == s.map_values(|x: JsonValue| x@),
{
    lemma_seq_view_len(s);
    assert forall|j: int| 0 <= j < s.len() implies #[trigger] json_seq_view(s)[j] == s.map_values(
        |x: JsonValue| x@,
    )[j] by {
        lemma_seq_view_index(s, j);
    }
    assert(json_seq_view(s) =~= s.map_values(|x: JsonValue| x@));
}

/// Builds an object from its members, in order.
pub fn make_object(members: Vec<(String, JsonValue)>) -> (r: JsonValue)
    ensures
        r@ == JsonView::Object(members@.map_values(|p: (String, JsonValue)| (p.0@, p.1@))),
{
    proof {
        lemma_members_view_map(members@);
    }
    JsonValue::Object(members)
}

/// Builds an array from its items, in order.
pub fn make_array(items: Vec<JsonValue>) -> (r: JsonValue)
    ensures
        r@ == JsonView::Array(items@.map_values(|x: JsonValue| x@)),
{
    proof {
        lemma_seq_view_map(items@);
    }
    JsonValue::Array(items)
}

/// Builds a JSON string.
pub fn json_str(s: &str) -> (r: JsonValue)
    ensures
        r@ == JsonView::Str(s@),
{
    JsonValue::Str(s.to_owned())
}

/// An object member `key: value`.
pub fn member(key: &str, value: JsonValue) -> (r: (String, JsonValue))
    ensures
        r.0@ == key@,
        r.1 == value,
{
    (key.to_owned(), value)
}

impl JsonValue {
    /// A copy of the value with the same view.
    pub fn copy_value(&self) -> (r: JsonValue)
        ensures
            r@ == self@,
        decreases self,
    {
        match self {
            JsonValue::Null => JsonValue::Null,
            JsonValue::Bool(b) => JsonValue::Bool(*b),
            JsonValue::Number(n) => JsonValue::Number(n.clone()),
            JsonValue::Str(s) => JsonValue::Str(s.clone()),
            JsonValue::Array(a) => {
                let mut out: Vec<JsonValue> = Vec::new();
                let mut i: usize = 0;
                while i < a.len()
                    invariant
                        *self == JsonValue::Array(*a),
                        i <= a.len(),
                        out.len() == i,
                        forall|k: int| 0 <= k < i ==> json_view(#[trigger] out@[k]) == json_view(a@[k]),
                    decreases a.len() - i,
                {
                    proof {
                        vstd::std_specs::vec::axiom_vec_index_decreases(*a, i as int);
                        assert(*self == JsonValue::Array(*a));
                        assert(decreases_to!(*self => (*self)->Array_0));
                    }
                    out.push(a[i].copy_value());
                    i = i + 1;
                }
                proof {
                    assert forall|k: int| 0 <= k < a.len() implies #[trigger] json_seq_view(out@)[k]
                        == json_seq_view(a@)[k] by {
                        lemma_seq_view_index(out@, k);
                        lemma_seq_view_index(a@, k);
                    }
                    lemma_seq_view_len(out@);
                    lemma_seq_view_len(a@);
                    assert(json_seq_view(out@) =~= json_seq_view(a@));
                }
                JsonValue::Array(out)
            },
            JsonValue::Object(m) => {
                let mut out: Vec<(String, JsonValue)> = Vec::new();
                let mut i: usize = 0;
                while i < m.len()
                    invariant
                        *self == JsonValue::Object(*m),
                        i <= m.len(),
                        out.len() == i,
                        forall|k: int|
                            0 <= k < i ==> (#[trigger] out@[k]).0@ == m@[k].0@ && json_view(out@[k].1)
                                == json_view(m@[k].1),
                    decreases m.len() - i,
                {
                    proof {
                        vstd::std_specs::vec::axiom_vec_index_decreases(*m, i as int);
                        assert(decreases_to!(*self => (*self)->Object_0));
                        assert(decreases_to!(m@[i as int] => m@[i as int].1));
                    }
                    let v = m[i].1.copy_value();
                    out.push((m[i].0.clone(), v));
                    i = i + 1;
                }
                proof {
                    assert forall|k: int| 0 <= k < m.len() implies #[trigger] json_members_view(
                        out@,
                    )[k] == json_members_view(m@)[k] by {
                        lemma_members_view_index(out@, k);
                        lemma_members_view_index(m@, k);
                    }
                    lemma_members_view_len(out@);
                    lemma_members_view_len(m@);
                    assert(json_members_view(out@) =~= json_members_view(m@));
                }
                JsonValue::Object(out)
            },
        }
    }

    /// The member at `key` of an object (`Value::get`); `None` for anything else.
    pub fn get(&self, key: &str) -> (r: Option<&JsonValue>)
        ensures
            match r {
                Some(x) => json_get(self@, key@) == Some(x@),
                None => json_get(self@, key@) is None,
            },
    {
        match self {
            JsonValue::Object(m) => {
                let mut i: usize = 0;
                while i < m.len()
                    invariant
                        *self == JsonValue::Object(*m),
                        i <= m.len(),
                        forall|j: int| 0 <= j < i ==> (#[trigger] m@[j]).0@ != key@,
                    decreases m.len() - i,
                {
                    if crate::text::str_eq(m[i].0.as_str(), key) {
                        proof {
                            let mv = json_members_view(m@);
                            assert forall|j: int| 0 <= j < i implies mv[j].0 != key@ by {
                                lemma_members_view_index(m@, j);
                            }
                            lemma_members_view_index(m@, i as int);
                            lemma_members_get_first(mv, key@, i as int);
                            assert(*self == JsonValue::Object(*m));
                            assert(json_view(*self) == JsonView::Object(mv));
                            assert(self@ == JsonView::Object(mv));
                        }
                        return Some(&m[i].1);
                    }
                    i = i + 1;
                }
                proof {
                    let mv = json_members_view(m@);
                    lemma_members_view_len(m@);
                    assert forall|j: int| 0 <= j < mv.len() implies mv[j].0 != key@ by {
                        lemma_members_view_index(m@, j);
                    }
                    lemma_members_get_none(mv, key@);
                }
                None
            },
            _ => None,
        }
    }

    /// The string member at `key` (`value.get(key).and_then(|v| v.as_str())`), copied.
    pub fn get_str(&self, key: &str) -> (r: Option<String>)
        ensures
            match r {
                Some(s) => json_get_str(self@, key@) == Some(s@),
                None => json_get_str(self@, key@) is None,
            },
    {
        match self.get(key) {
            Some(JsonValue::Str(s)) => Some(s.clone()),
            _ => None,
        }
    }
}

} // verus!

verus! {

#[verifier::external_type_specification]
#[verifier::external_body]
pub struct ExSerdeJsonValue(serde_json::Value);

/// Name for the compact JSON text that `serde_json` writes for a value
/// (`Display` of `serde_json::Value`).
pub uninterp spec fn json_text(v: JsonView) -> Seq<char>;

/// Name for what `serde_json::from_str::<serde_json::Value>` gives for a text:
/// the parsed value, or the text of the parse error.
pub uninterp spec fn json_parse(text: Seq<char>) -> Result<JsonView, Seq<char>>;

/// Converts a library value into a `serde_json::Value`, variant by variant
/// (numbers are read back from their text). Nothing is stated of it; it only
/// serves the two wrappers below.
#[verifier::external_body]
fn serde_from_json(v: &JsonValue) -> serde_json::Value {
    match v {
        JsonValue::Null => serde_json::Value::Null,
        JsonValue::Bool(b) => serde_json::Value::Bool(*b),
        JsonValue::Number(n) => n.parse::<serde_json::Value>().unwrap_or(serde_json::Value::Null),
        JsonValue::Str(s) => serde_json::Value::String(s.clone()),
        JsonValue::Array(a) => serde_json::Value::Array(a.iter().map(serde_from_json).collect()),
        JsonValue::Object(m) => serde_json::Value::Object(
            m.iter().map(|(k, x)| (k.clone(), serde_from_json(x))).collect(),
        ),
    }
}

/// Converts a `serde_json::Value` into the library's value, variant by variant
/// (numbers keep their text). Nothing is stated of it; it only serves the
/// two wrappers below.
#[verifier::external_body]
fn json_from_serde(v: &serde_json::Value) -> JsonValue {
    match v {
        serde_json::Value::Null => JsonValue::Null,
        serde_json::Value::Bool(b) => JsonValue::Bool(*b),
        serde_json::Value::Number(n) => JsonValue::Number(n.to_string()),
        serde_json::Value::String(s) => JsonValue::Str(s.clone()),
        serde_json::Value::Array(a) => JsonValue::Array(a.iter().map(json_from_serde).collect()),
        serde_json::Value::Object(m) => JsonValue::Object(
            m.iter().map(|(k, x)| (k.clone(), json_from_serde(x))).collect(),
        ),
    }
}

/// Calls `serde_json::from_str::<serde_json::Value>`. Claims that the outcome
/// (the value, or the error's text) is the named function `json_parse` of the
/// input text; what that function is on given texts is not stated.
#[verifier::external_body]
pub fn parse_json(text: &str) -> (r: Result<JsonValue, String>)
    ensures
        match r {
            Ok(v) => json_parse(text@) == Ok::<JsonView, Seq<char>>(v@),
            Err(e) => json_parse(text@) == Err::<JsonView, Seq<char>>(e@),
        },
{
    match serde_json::from_str::<serde_json::Value>(text) {
        Ok(v) => Ok(json_from_serde(&v)),
        Err(e) => Err(e.to_string()),
    }
}

/// Writes the compact JSON text of a value through `serde_json`'s `Display`
/// of `serde_json::Value`. Claims that the text is the named function
/// `json_text` of the value's view; the text itself is not stated.
#[verifier::external_body]
pub fn json_to_text(v: &JsonValue) -> (r: String)
    ensures
        r@ == json_text(v@),
{
    serde_from_json(v).to_string()
}

} // verus!

verus! {

impl crate::keyed::Duplicate for JsonValue {
    fn duplicate(&self) -> (r: Self) {
        self.copy_value()
    }
}

/// The JSON object of a string-to-string map: each value as a JSON string.
pub open spec fn string_map_json(s: Seq<(Seq<char>, Seq<char>)>) -> JsonView {
    JsonView::Object(s.map_values(|p: (Seq<char>, Seq<char>)| (p.0, JsonView::Str(p.1))))
}

/// Renders a string-to-string map as a JSON object, in walking order.
pub fn string_map_to_json(m: &crate::keyed::StrKeyed<String>) -> (r: JsonValue)
    ensures
        r@ == string_map_json(m@),
{
    let mut members: Vec<(String, JsonValue)> = Vec::new();
    let mut i: usize = 0;
    while i < m.len()
        invariant
            i <= m@.len(),
            members.len() == i,
            forall|k: int|
                0 <= k < i ==> (#[trigger] members@[k]).0@ == m@[k].0 && members@[k].1@
                    == JsonView::Str(m@[k].1),
        decreases m@.len() - i,
    {
        let (k, v) = m.entry(i);
        members.push((k.clone(), JsonValue::Str(v.clone())));
        i = i + 1;
    }
    let r = make_object(members);
    assert(members@.map_values(|p: (String, JsonValue)| (p.0@, p.1@)) =~= m@.map_values(
        |p: (Seq<char>, Seq<char>)| (p.0, JsonView::Str(p.1)),
    ));
    r
}

} // verus!

verus! {

/// An object's members once `key` is set to `v` (`Map::insert`): the first
/// member with that key gets the new value in place; a new key goes last.
pub open spec fn members_set(m: Seq<(Seq<char>, JsonView)>, key: Seq<char>, v: JsonView) -> Seq<
    (Seq<char>, JsonView),
>
    decreases m.len(),
{
    if m.len() == 0 {
        seq![(key, v)]
    } else if m[0].0 == key {
        m.update(0, (key, v))
    } else {
        seq![m[0]] + members_set(m.drop_first(), key, v)
    }
}

/// A value once `key` is set to `v`: objects get the member, anything else is unchanged.
pub open spec fn json_set(j: JsonView, key: Seq<char>, v: JsonView) -> JsonView {
    match j {
        JsonView::Object(m) => JsonView::Object(members_set(m, key, v)),
        _ => j,
    }
}

proof fn lemma_members_set_at(m: Seq<(Seq<char>, JsonView)>, key: Seq<char>, v: JsonView, i: int)
    requires
        0 <= i < m.len(),
        m[i].0 == key,
        forall|j: int| 0 <= j < i ==> m[j].0 != key,
    ensures
        members_set(m, key, v) == m.update(i, (key, v)),
    decreases i,
{
    if i > 0 {
        lemma_members_set_at(m.drop_first(), key, v, i - 1);
        assert(members_set(m, key, v) =~= m.update(i, (key, v)));
    }
}

proof fn lemma_members_set_absent(m: Seq<(Seq<char>, JsonView)>, key: Seq<char>, v: JsonView)
    requires
        forall|j: int| 0 <= j < m.len() ==> m[j].0 != key,
    ensures
        members_set(m, key, v) == m.push((key, v)),
    decreases m.len(),
{
    if m.len() > 0 {
        lemma_members_set_absent(m.drop_first(), key, v);
        assert(members_set(m, key, v) =~= m.push((key, v)));
    }
}

impl JsonValue {
    /// Sets `key` to `value` when this is an object (`Map::insert`); any other value is left as it is.
    pub fn insert_member(&mut self, key: &str, value: JsonValue)
        ensures
            final(self)@ == json_set(old(self)@, key@, value@),
    {
        let ghost before = self@;
        let mut taken = JsonValue::Null;
        std::mem::swap(&mut taken, self);
        match taken {
            JsonValue::Object(mut m) => {
                let ghost mv = json_members_view(m@);
                proof {
                    lemma_members_view_map(m@);
                }
                let mut i: usize = 0;
                let mut found = false;
                while i < m.len() && !found
                    invariant
                        mv == json_members_view(m@),
                        mv == m@.map_values(|p: (String, JsonValue)| (p.0@, p.1@)),
                        i <= m.len(),
                        found ==> i < m.len() && m@[i as int].0@ == key@,
                        forall|j: int| 0 <= j < i ==> (#[trigger] m@[j]).0@ != key@,
                    decreases m.len() - i, if found { 0int } else { 1int },
                {
                    if crate::text::str_eq(m[i].0.as_str(), key) {
                        found = true;
                    } else {
                        i = i + 1;
                    }
                }
                if found {
                    proof {
                        lemma_members_set_at(mv, key@, value@, i as int);
                    }
                    m.set(i, (key.to_owned(), value));
                } else {
                    proof {
                        lemma_members_set_absent(mv, key@, value@);
                    }
                    m.push((key.to_owned(), value));
                }
                *self = make_object(m);
                assert(self@->Object_0 =~= members_set(mv, key@, value@));
            },
            other => {
                *self = other;
            },
        }
    }
}

} // verus!
