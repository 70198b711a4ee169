//! A plain model of GraphQL JSON responses, navigation over it, and its
//! debug rendering (the layout serde_json's `Debug` for `Value` uses).
use vstd::prelude::*;

verus! {

/// A JSON value. Numbers are kept as the text serde_json displays them;
/// object members keep the order in which they were given.
#[derive(Debug)]
pub enum JsonValue {
    Null,
    Bool(bool),
    Number(String),
    Str(String),
    Array(Vec<JsonValue>),
    Object(Vec<(String, JsonValue)>),
}

/// The value of the first member named `key`.
pub open spec fn spec_lookup(entries: Seq<(String, JsonValue)>, key: Seq<char>) -> Option<JsonValue>
    decreases entries.len(),
{
    if entries.len() == 0 {
        None
    } else if entries[0].0@ == key {
        Some(entries[0].1)
    } else {
        spec_lookup(entries.skip(1), key)
    }
}

/// `value.get(key)`: the member `key` of an object, `None` otherwise.
pub open spec fn spec_get(v: JsonValue, key: Seq<char>) -> Option<JsonValue> {
    match v {
        JsonValue::Object(entries) => spec_lookup(entries@, key),
        _ => None,
    }
}

pub open spec fn spec_get_opt(o: Option<JsonValue>, key: Seq<char>) -> Option<JsonValue> {
    match o {
        Some(v) => spec_get(v, key),
        None => None,
    }
}

pub open spec fn spec_as_str_opt(o: Option<JsonValue>) -> Option<Seq<char>> {
    match o {
        Some(JsonValue::Str(s)) => Some(s@),
        _ => None,
    }
}

pub open spec fn spec_as_array_opt(o: Option<JsonValue>) -> Option<Seq<JsonValue>> {
    match o {
        Some(JsonValue::Array(a)) => Some(a@),
        _ => None,
    }
}

pub open spec fn deref_opt(o: Option<&JsonValue>) -> Option<JsonValue> {
    match o {
        Some(v) => Some(*v),
        None => None,
    }
}

/// The member `key` of `v`, if `v` is an object that has one.
pub fn get<'a>(v: &'a JsonValue, key: &str) -> (r: Option<&'a JsonValue>)
    ensures
        deref_opt(r) == spec_get(*v, key@),
{
    match v {
        JsonValue::Object(entries) => {
            let mut i: usize = 0;
            assert(entries@.skip(0) == entries@);
            while i < entries.len()
                invariant
                    i <= entries.len(),
                    spec_get(*v, key@) == spec_lookup(entries@, key@),
                    spec_lookup(entries@, key@) == spec_lookup(entries@.skip(i as int), key@),
                decreases entries.len() - i,
            {
                let ghost rest = entries@.skip(i as int);
                assert(rest[0] == entries@[i as int]);
                if crate::text::str_eq(entries[i].0.as_str(), key) {
                    assert(spec_lookup(rest, key@) == Some(entries@[i as int].1));
                    return Some(&entries[i].1);
                }
                assert(rest.skip(1) == entries@.skip(i + 1));
                i = i + 1;
            }
            None
        },
        _ => None,
    }
}

pub fn get_opt<'a>(o: Option<&'a JsonValue>, key: &str) -> (r: Option<&'a JsonValue>)
    ensures
        deref_opt(r) == spec_get_opt(deref_opt(o), key@),
{
    match o {
        Some(v) => get(v, key),
        None => None,
    }
}

/// The text of a JSON string value.
pub fn as_str_opt<'a>(o: Option<&'a JsonValue>) -> (r: Option<&'a String>)
    ensures
        match r {
            Some(s) => spec_as_str_opt(deref_opt(o)) == Some(s@),
            None => spec_as_str_opt(deref_opt(o)) is None,
        },
{
    match o {
        Some(JsonValue::Str(s)) => Some(s),
        _ => None,
    }
}

/// The elements of a JSON array value.
pub fn as_array_opt<'a>(o: Option<&'a JsonValue>) -> (r: Option<&'a Vec<JsonValue>>)
    ensures
        match r {
            Some(a) => spec_as_array_opt(deref_opt(o)) == Some(a@),
            None => spec_as_array_opt(deref_opt(o)) is None,
        },
{
    match o {
        Some(JsonValue::Array(a)) => Some(a),
        _ => None,
    }
}

/// What `format!("{:?}", s)` writes for a string: the quoted, escaped text.
pub uninterp spec fn spec_debug_str(s: Seq<char>) -> Seq<char>;

/// Trusted: calls `format!("{:?}", s)` (std's `Debug` for `str`); the result
/// depends on the characters alone and is named `spec_debug_str`.
#[verifier::external_body]
pub(crate) fn debug_str(s: &str) -> (r: String)
    ensures
        r@ == spec_debug_str(s@),
{
    format!("{:?}", s)
}

/// The debug text of a JSON value: `Null`, `Bool(true)`, `Number(1)`,
/// `String("a")`, `Array [..]`, `Object {"k": ..}`.
pub open spec fn spec_json_debug(v: JsonValue) -> Seq<char>
    decreases v, 0nat,
{
    match v {
        JsonValue::Null => "Null"@,
        JsonValue::Bool(b) => if b {
            "Bool(true)"@
        } else {
            "Bool(false)"@
        },
        JsonValue::Number(n) => "Number("@ + n@ + ")"@,
        JsonValue::Str(s) => "String("@ + spec_debug_str(s@) + ")"@,
        JsonValue::Array(items) => "Array "@ + spec_debug_list(items@),
        JsonValue::Object(entries) => "Object "@ + spec_debug_map(entries@),
    }
}

/// The elements' debug texts separated by ", ".
pub open spec fn spec_debug_items(items: Seq<JsonValue>) -> Seq<char>
    decreases items, 0nat,
{
    if items.len() == 0 {
        Seq::empty()
    } else if items.len() == 1 {
        spec_json_debug(items[0])
    } else {
        spec_debug_items(items.drop_last()) + ", "@ + spec_json_debug(items.last())
    }
}

/// `[a, b, ..]`, the debug text of a list.
pub open spec fn spec_debug_list(items: Seq<JsonValue>) -> Seq<char>
    decreases items, 1nat,
{
    "["@ + spec_debug_items(items) + "]"@
}

/// `"k": v` pairs separated by ", ".
pub open spec fn spec_debug_entries(entries: Seq<(String, JsonValue)>) -> Seq<char>
    decreases entries, 0nat,
{
    if entries.len() == 0 {
        Seq::empty()
    } else if entries.len() == 1 {
        spec_debug_str(entries[0].0@) + ": "@ + spec_json_debug(entries[0].1)
    } else {
        spec_debug_entries(entries.drop_last()) + ", "@ + spec_debug_str(entries.last().0@) + ": "@
            + spec_json_debug(entries.last().1)
    }
}

/// `{"k": v, ..}`, the debug text of an object.
pub open spec fn spec_debug_map(entries: Seq<(String, JsonValue)>) -> Seq<char>
    decreases entries, 1nat,
{
    "{"@ + spec_debug_entries(entries) + "}"@
}

/// Writes the debug text of a JSON value.
pub fn json_debug(v: &JsonValue) -> (r: String)
    ensures
        r@ == spec_json_debug(*v),
    decreases v,
{
    match v {
        JsonValue::Null => String::from_str("Null"),
        JsonValue::Bool(b) => if *b {
            String::from_str("Bool(true)")
        } else {
            String::from_str("Bool(false)")
        },
        JsonValue::Number(n) => {
            let mut r = String::from_str("Number(");
            r.append(n.as_str());
            r.append(")");
            r
        },
        JsonValue::Str(s) => {
            let mut r = String::from_str("String(");
            let d = debug_str(s.as_str());
            r.append(d.as_str());
            r.append(")");
            r
        },
        JsonValue::Array(items) => {
            let mut r = String::from_str("Array ");
            let l = debug_list(items);
            r.append(l.as_str());
            r
        },
        JsonValue::Object(entries) => {
            let mut r = String::from_str("Object ");
            let m = debug_map(entries);
            r.append(m.as_str());
            r
        },
    }
}

/// Writes `[a, b, ..]` for a list of JSON values.
pub fn debug_list(items: &Vec<JsonValue>) -> (r: String)
    ensures
        r@ == spec_debug_list(items@),
    decreases items,
{
    let mut r = String::from_str("[");
    let mut i: usize = 0;
    while i < items.len()
        invariant
            i <= items.len(),
            r@ == "["@ + spec_debug_items(items@.take(i as int)),
        decreases items.len() - i,
    {
        let ghost before = items@.take(i as int);
        let ghost after = items@.take(i + 1);
        assert(after.drop_last() == before);
        assert(after.last() == items@[i as int]);
        if i > 0 {
            r.append(", ");
        }
        proof {
            assert(decreases_to!(items => items@));
            assert(decreases_to!(items@ => items@[i as int]));
        }
        let d = json_debug(&items[i]);
        r.append(d.as_str());
        i = i + 1;
    }
    assert(items@.take(items.len() as int) == items@);
    r.append("]");
    r
}

/// Writes `{"k": v, ..}` for the members of a JSON object.
pub fn debug_map(entries: &Vec<(String, JsonValue)>) -> (r: String)
    ensures
        r@ == spec_debug_map(entries@),
    decreases entries,
{
    let mut r = String::from_str("{");
    let mut i: usize = 0;
    while i < entries.len()
        invariant
            i <= entries.len(),
            r@ == "{"@ + spec_debug_entries(entries@.take(i as int)),
        decreases entries.len() - i,
    {
        let ghost before = entries@.take(i as int);
        let ghost after = entries@.take(i + 1);
        assert(after.drop_last() == before);
        assert(after.last() == entries@[i as int]);
        if i > 0 {
            r.append(", ");
        }
        let k = debug_str(entries[i].0.as_str());
        r.append(k.as_str());
        r.append(": ");
        proof {
            assert(decreases_to!(entries => entries@));
            assert(decreases_to!(entries@ => entries@[i as int]));
            assert(decreases_to!(entries@[i as int] => entries@[i as int].1));
        }
        let d = json_debug(&entries[i].1);
        r.append(d.as_str());
        i = i + 1;
    }
    assert(entries@.take(entries.len() as int) == entries@);
    r.append("}");
    r
}

} // verus!
verus! {

/// The mathematical content of a JSON value: strings and numbers as
/// character sequences, arrays and objects as sequences.
#[verifier::ext_equal]
pub enum JsonView {
    Null,
    Bool(bool),
    Number(Seq<char>),
    Str(Seq<char>),
    Array(Seq<JsonView>),
    Object(Seq<(Seq<char>, JsonView)>),
}

pub open spec fn model(v: JsonValue) -> JsonView
    decreases v, 0nat,
{
    match v {
        JsonValue::Null => JsonView::Null,
        JsonValue::Bool(b) => JsonView::Bool(b),
        JsonValue::Number(n) => JsonView::Number(n@),
        JsonValue::Str(s) => JsonView::Str(s@),
        JsonValue::Array(items) => JsonView::Array(models(items@)),
        JsonValue::Object(members) => JsonView::Object(member_models(members@)),
    }
}

pub open spec fn models(s: Seq<JsonValue>) -> Seq<JsonView>
    decreases s, 1nat,
{
    Seq::new(s.len(), |i: int| if 0 <= i < s.len() { model(s[i]) } else { JsonView::Null })
}

pub open spec fn member_models(s: Seq<(String, JsonValue)>) -> Seq<(Seq<char>, JsonView)>
    decreases s, 1nat,
{
    Seq::new(
        s.len(),
        |i: int| if 0 <= i < s.len() { (s[i].0@, model(s[i].1)) } else { (Seq::empty(), JsonView::Null) },
    )
}

impl View for JsonValue {
    type V = JsonView;

    open spec fn view(&self) -> JsonView {
        model(*self)
    }
}

/// JSON `null`.
pub fn jnull() -> (r: JsonValue)
    ensures
        r@ == JsonView::Null,
{
    JsonValue::Null
}

/// A JSON boolean.
pub fn jbool(b: bool) -> (r: JsonValue)
    ensures
        r@ == JsonView::Bool(b),
{
    JsonValue::Bool(b)
}

/// A JSON number written as `text`.
pub fn jnum(text: &str) -> (r: JsonValue)
    ensures
        r@ == JsonView::Number(text@),
{
    JsonValue::Number(String::from_str(text))
}

/// A JSON string.
pub fn jstr(s: &str) -> (r: JsonValue)
    ensures
        r@ == JsonView::Str(s@),
{
    JsonValue::Str(String::from_str(s))
}

/// A string, or `null` for `None`.
pub open spec fn spec_str_or_null(s: Option<String>) -> JsonView {
    match s {
        Some(t) => JsonView::Str(t@),
        None => JsonView::Null,
    }
}

/// A JSON string, or `null` for `None`.
pub fn jstr_or_null(s: &Option<String>) -> (r: JsonValue)
    ensures
        r@ == spec_str_or_null(*s),
{
    match s {
        Some(t) => JsonValue::Str(t.clone()),
        None => JsonValue::Null,
    }
}

/// An empty member list.
pub fn new_members() -> (r: Vec<(String, JsonValue)>)
    ensures
        member_models(r@) == Seq::<(Seq<char>, JsonView)>::empty(),
{
    let r: Vec<(String, JsonValue)> = Vec::new();
    assert(member_models(r@) =~= Seq::<(Seq<char>, JsonView)>::empty());
    r
}

/// Appends the member `k: v`.
pub fn push_member(members: &mut Vec<(String, JsonValue)>, k: &str, v: JsonValue)
    ensures
        member_models(final(members)@) == member_models(old(members)@).push((k@, v@)),
{
    members.push((String::from_str(k), v));
    assert(member_models(members@) =~= member_models(old(members)@).push((k@, v@)));
}

/// A JSON object with the given members, in order.
pub fn jobject(members: Vec<(String, JsonValue)>) -> (r: JsonValue)
    ensures
        r@ == JsonView::Object(member_models(members@)),
{
    JsonValue::Object(members)
}

/// An empty item list.
pub fn new_items() -> (r: Vec<JsonValue>)
    ensures
        models(r@) == Seq::<JsonView>::empty(),
{
    let r: Vec<JsonValue> = Vec::new();
    assert(models(r@) =~= Seq::<JsonView>::empty());
    r
}

/// Appends an item.
pub fn push_item(items: &mut Vec<JsonValue>, v: JsonValue)
    ensures
        models(final(items)@) == models(old(items)@).push(v@),
{
    items.push(v);
    assert(models(items@) =~= models(old(items)@).push(v@));
}

/// A JSON array with the given items, in order.
pub fn jarray(items: Vec<JsonValue>) -> (r: JsonValue)
    ensures
        r@ == JsonView::Array(models(items@)),
{
    JsonValue::Array(items)
}

/// A JSON array of strings.
pub fn jstr_array(items: &Vec<String>) -> (r: JsonValue)
    ensures
        r@ == JsonView::Array(items@.map_values(|s: String| JsonView::Str(s@))),
{
    let mut out = new_items();
    let mut i: usize = 0;
    while i < items.len()
        invariant
            i <= items.len(),
            models(out@) == items@.take(i as int).map_values(|s: String| JsonView::Str(s@)),
        decreases items.len() - i,
    {
        push_item(&mut out, JsonValue::Str(items[i].clone()));
        assert(items@.take(i + 1).map_values(|s: String| JsonView::Str(s@)) =~= items@.take(
            i as int,
        ).map_values(|s: String| JsonView::Str(s@)).push(JsonView::Str(items@[i as int]@)));
        i = i + 1;
    }
    assert(items@.take(items.len() as int) == items@);
    jarray(out)
}

} // verus!

verus! {

/// The object with the 1 given member, in order.
pub fn jobject1(k1: &str, v1: JsonValue) -> (r: JsonValue)
    ensures
        r@ == JsonView::Object(seq![(k1@, v1@)]),
{
    let mut m = new_members();
    push_member(&mut m, k1, v1);
    assert(member_models(m@) =~= seq![(k1@, v1@)]);
    jobject(m)
}

/// The object with the 2 given members, in order.
pub fn jobject2(k1: &str, v1: JsonValue, k2: &str, v2: JsonValue) -> (r: JsonValue)
    ensures
        r@ == JsonView::Object(seq![(k1@, v1@), (k2@, v2@)]),
{
    let mut m = new_members();
    push_member(&mut m, k1, v1);
    push_member(&mut m, k2, v2);
    assert(member_models(m@) =~= seq![(k1@, v1@), (k2@, v2@)]);
    jobject(m)
}

/// The object with the 3 given members, in order.
pub fn jobject3(k1: &str, v1: JsonValue, k2: &str, v2: JsonValue, k3: &str, v3: JsonValue) -> (r: JsonValue)
    ensures
        r@ == JsonView::Object(seq![(k1@, v1@), (k2@, v2@), (k3@, v3@)]),
{
    let mut m = new_members();
    push_member(&mut m, k1, v1);
    push_member(&mut m, k2, v2);
    push_member(&mut m, k3, v3);
    assert(member_models(m@) =~= seq![(k1@, v1@), (k2@, v2@), (k3@, v3@)]);
    jobject(m)
}

/// The object with the 4 given members, in order.
pub fn jobject4(k1: &str, v1: JsonValue, k2: &str, v2: JsonValue, k3: &str, v3: JsonValue, k4: &str, v4: JsonValue) -> (r: JsonValue)
    ensures
        r@ == JsonView::Object(seq![(k1@, v1@), (k2@, v2@), (k3@, v3@), (k4@, v4@)]),
{
    let mut m = new_members();
    push_member(&mut m, k1, v1);
    push_member(&mut m, k2, v2);
    push_member(&mut m, k3, v3);
    push_member(&mut m, k4, v4);
    assert(member_models(m@) =~= seq![(k1@, v1@), (k2@, v2@), (k3@, v3@), (k4@, v4@)]);
    jobject(m)
}

/// The object with the 5 given members, in order.
pub fn jobject5(k1: &str, v1: JsonValue, k2: &str, v2: JsonValue, k3: &str, v3: JsonValue, k4: &str, v4: JsonValue, k5: &str, v5: JsonValue) -> (r: JsonValue)
    ensures
        r@ == JsonView::Object(seq![(k1@, v1@), (k2@, v2@), (k3@, v3@), (k4@, v4@), (k5@, v5@)]),
{
    let mut m = new_members();
    push_member(&mut m, k1, v1);
    push_member(&mut m, k2, v2);
    push_member(&mut m, k3, v3);
    push_member(&mut m, k4, v4);
    push_member(&mut m, k5, v5);
    assert(member_models(m@) =~= seq![(k1@, v1@), (k2@, v2@), (k3@, v3@), (k4@, v4@), (k5@, v5@)]);
    jobject(m)
}

/// The object with the 6 given members, in order.
pub fn jobject6(k1: &str, v1: JsonValue, k2: &str, v2: JsonValue, k3: &str, v3: JsonValue, k4: &str, v4: JsonValue, k5: &str, v5: JsonValue, k6: &str, v6: JsonValue) -> (r: JsonValue)
    ensures
        r@ == JsonView::Object(seq![(k1@, v1@), (k2@, v2@), (k3@, v3@), (k4@, v4@), (k5@, v5@), (k6@, v6@)]),
{
    let mut m = new_members();
    push_member(&mut m, k1, v1);
    push_member(&mut m, k2, v2);
    push_member(&mut m, k3, v3);
    push_member(&mut m, k4, v4);
    push_member(&mut m, k5, v5);
    push_member(&mut m, k6, v6);
    assert(member_models(m@) =~= seq![(k1@, v1@), (k2@, v2@), (k3@, v3@), (k4@, v4@), (k5@, v5@), (k6@, v6@)]);
    jobject(m)
}

/// The array holding one item.
pub fn jarray1(v: JsonValue) -> (r: JsonValue)
    ensures
        r@ == JsonView::Array(seq![v@]),
{
    let mut items = new_items();
    push_item(&mut items, v);
    jarray(items)
}

/// The empty array.
pub fn jarray0() -> (r: JsonValue)
    ensures
        r@ == JsonView::Array(Seq::empty()),
{
    jarray(new_items())
}

} // verus!

verus! {

pub open spec fn opt_str_view(o: Option<&str>) -> Option<Seq<char>> {
    match o {
        Some(s) => Some(s@),
        None => None,
    }
}

/// The member `k: "<v>"` when a value is given, no member otherwise.
pub open spec fn spec_opt_member(k: Seq<char>, o: Option<Seq<char>>) -> Seq<(Seq<char>, JsonView)> {
    match o {
        Some(v) => seq![(k, JsonView::Str(v))],
        None => Seq::empty(),
    }
}

/// Appends the string member `k` when a value is given.
pub fn push_opt_str_member(members: &mut Vec<(String, JsonValue)>, k: &str, o: Option<&str>)
    ensures
        member_models(final(members)@) == member_models(old(members)@) + spec_opt_member(k@, opt_str_view(o)),
{
    match o {
        Some(v) => {
            push_member(members, k, jstr(v));
            assert(member_models(old(members)@).push((k@, JsonView::Str(v@))) =~= member_models(old(members)@)
                + spec_opt_member(k@, opt_str_view(o)));
        },
        None => {
            assert(member_models(old(members)@) =~= member_models(old(members)@) + spec_opt_member(
                k@,
                opt_str_view(o),
            ));
        },
    }
}

/// The text at `v.key`, if it is a string.
pub open spec fn spec_str_field(v: JsonValue, key: Seq<char>) -> Option<Seq<char>> {
    spec_as_str_opt(spec_get(v, key))
}

/// The first element of an array, if there is one.
pub open spec fn spec_first(o: Option<Seq<JsonValue>>) -> Option<JsonValue> {
    match o {
        Some(a) => if a.len() > 0 {
            Some(a[0])
        } else {
            None
        },
        None => None,
    }
}

/// The first element of an optional array.
pub fn first_of<'a>(o: Option<&'a Vec<JsonValue>>) -> (r: Option<&'a JsonValue>)
    ensures
        deref_opt(r) == spec_first(match o {
            Some(a) => Some(a@),
            None => None,
        }),
{
    match o {
        Some(a) => if a.len() > 0 {
            Some(&a[0])
        } else {
            None
        },
        None => None,
    }
}

/// An owned copy of an optional string.
pub fn owned_opt(o: Option<&String>) -> (r: Option<String>)
    ensures
        match o {
            Some(s) => r matches Some(t) && t@ == s@,
            None => r is None,
        },
{
    match o {
        Some(s) => Some(s.clone()),
        None => None,
    }
}

} // verus!
verus! {

/// A boolean, or `null` for `None`.
pub open spec fn spec_bool_or_null(b: Option<bool>) -> JsonView {
    match b {
        Some(x) => JsonView::Bool(x),
        None => JsonView::Null,
    }
}

/// A JSON boolean, or `null` for `None`.
pub fn jbool_or_null(b: Option<bool>) -> (r: JsonValue)
    ensures
        r@ == spec_bool_or_null(b),
{
    match b {
        Some(x) => JsonValue::Bool(x),
        None => JsonValue::Null,
    }
}

/// The texts of a string list.
pub open spec fn spec_str_items(items: Seq<String>) -> Seq<JsonView> {
    items.map_values(|s: String| JsonView::Str(s@))
}

/// An array of strings, or `null` for `None`.
pub open spec fn spec_str_array_or_null(o: Option<Vec<String>>) -> JsonView {
    match o {
        Some(v) => JsonView::Array(spec_str_items(v@)),
        None => JsonView::Null,
    }
}

/// A JSON array of strings, or `null` for `None`.
pub fn jstr_array_or_null(o: &Option<Vec<String>>) -> (r: JsonValue)
    ensures
        r@ == spec_str_array_or_null(*o),
{
    match o {
        Some(v) => jstr_array(v),
        None => JsonValue::Null,
    }
}

/// The member `k: v` when a value is given, no member otherwise.
pub open spec fn spec_opt_value_member(k: Seq<char>, o: Option<JsonView>) -> Seq<(Seq<char>, JsonView)> {
    match o {
        Some(v) => seq![(k, v)],
        None => Seq::empty(),
    }
}

/// The view of an optional JSON value.
pub open spec fn opt_model(o: Option<JsonValue>) -> Option<JsonView> {
    match o {
        Some(v) => Some(v@),
        None => None,
    }
}

/// Appends the member `k` when a value is given.
pub fn push_opt_value_member(members: &mut Vec<(String, JsonValue)>, k: &str, o: Option<JsonValue>)
    ensures
        member_models(final(members)@) == member_models(old(members)@) + spec_opt_value_member(k@, opt_model(o)),
{
    match o {
        Some(v) => {
            let ghost vv = v@;
            push_member(members, k, v);
            assert(member_models(old(members)@).push((k@, vv)) =~= member_models(old(members)@)
                + spec_opt_value_member(k@, Some(vv)));
        },
        None => {
            assert(member_models(old(members)@) =~= member_models(old(members)@) + spec_opt_value_member(
                k@,
                None,
            ));
        },
    }
}

/// Appends the string member `k` when a value is given.
pub fn push_opt_string_member(members: &mut Vec<(String, JsonValue)>, k: &str, o: &Option<String>)
    ensures
        member_models(final(members)@) == member_models(old(members)@) + spec_opt_member(
            k@,
            crate::queries::opt_view(*o),
        ),
{
    match o {
        Some(v) => push_opt_str_member(members, k, Some(v.as_str())),
        None => push_opt_str_member(members, k, None),
    }
}

} // verus!
verus! {

/// The member `key` of `v` as an optional field reads it: absent when the
/// member is missing or `null`.
pub open spec fn spec_present(v: JsonValue, key: Seq<char>) -> Option<JsonValue> {
    match spec_get(v, key) {
        Some(JsonValue::Null) => None,
        o => o,
    }
}

/// The text of the member `key` when it is a string.
pub open spec fn spec_str_present(v: JsonValue, key: Seq<char>) -> Option<Seq<char>> {
    match spec_present(v, key) {
        Some(JsonValue::Str(s)) => Some(s@),
        _ => None,
    }
}

/// The member `key` of `v`, absent when missing or `null`.
pub fn present<'a>(v: &'a JsonValue, key: &str) -> (r: Option<&'a JsonValue>)
    ensures
        deref_opt(r) == spec_present(*v, key@),
{
    match get(v, key) {
        Some(JsonValue::Null) => None,
        o => o,
    }
}

/// The text of the member `key` when it is a string, owned.
pub fn str_present(v: &JsonValue, key: &str) -> (r: Option<String>)
    ensures
        crate::queries::opt_view(r) == spec_str_present(*v, key@),
{
    match present(v, key) {
        Some(JsonValue::Str(s)) => Some(s.clone()),
        _ => None,
    }
}

} // verus!
verus! {

/// The value of the first member named `key` among `members[from..]`.
pub open spec fn spec_find_member(members: Seq<(Seq<char>, JsonView)>, key: Seq<char>, from: int) -> Option<
    JsonView,
>
    decreases members.len() - from,
{
    if from < 0 || from >= members.len() {
        None
    } else if members[from].0 == key {
        Some(members[from].1)
    } else {
        spec_find_member(members, key, from + 1)
    }
}

/// The member `key` of a JSON object (the first one of that name), `None`
/// for anything else.
pub open spec fn spec_member_of(v: JsonView, key: Seq<char>) -> Option<JsonView> {
    match v {
        JsonView::Object(members) => spec_find_member(members, key, 0),
        _ => None,
    }
}

} // verus!
