//! Metaobjects, with their GraphQL enum texts.
use vstd::prelude::*;
use crate::error::UserError;
use crate::json::{JsonValue, JsonView, models, new_items, push_item, jarray, jstr, jobject1, jobject2, jobject4};
use crate::text::{chars_of, chars_equal, string_from_slice};

verus! {

#[derive(Debug, Clone, PartialEq, Eq, Structural)]
pub enum MetaobjectStatus {
    /// `ACTIVE`
    ACTIVE,
    /// `DRAFT`
    DRAFT,
}

impl MetaobjectStatus {
    /// The value `from_str` gives for a string.
    pub open spec fn spec_from_str(s: Seq<char>) -> MetaobjectStatus {
        if s == seq!['A', 'C', 'T', 'I', 'V', 'E'] {
            MetaobjectStatus::ACTIVE
        } else {
            MetaobjectStatus::DRAFT
        }
    }

    /// The text `to_string` gives for a value.
    pub open spec fn spec_to_string(self) -> Seq<char> {
        match self {
            MetaobjectStatus::ACTIVE => seq!['A', 'C', 'T', 'I', 'V', 'E'],
            MetaobjectStatus::DRAFT => seq!['D', 'R', 'A', 'F', 'T'],
        }
    }

    /// Reads the GraphQL enum text: "ACTIVE" gives `ACTIVE`; any other text gives `DRAFT`.
    pub fn from_str(role: &str) -> (r: MetaobjectStatus)
        ensures
            r == MetaobjectStatus::spec_from_str(role@),
    {
        let cs = chars_of(role);
        if chars_equal(&cs, &['A', 'C', 'T', 'I', 'V', 'E']) {
            MetaobjectStatus::ACTIVE
        } else {
            MetaobjectStatus::DRAFT
        }
    }

    /// The GraphQL enum text of the value.
    pub fn to_string(&self) -> (r: String)
        ensures
            r@ == self.spec_to_string(),
    {
        let text: &[char] = match self {
            MetaobjectStatus::ACTIVE => &['A', 'C', 'T', 'I', 'V', 'E'],
            MetaobjectStatus::DRAFT => &['D', 'R', 'A', 'F', 'T'],
        };
        string_from_slice(text)
    }
}

/// Reading back the text of a value gives the value again.
pub proof fn lemma_metaobject_status_round_trip(v: MetaobjectStatus)
    ensures
        MetaobjectStatus::spec_from_str(v.spec_to_string()) == v,
{
    match v {
        MetaobjectStatus::ACTIVE => {},
        MetaobjectStatus::DRAFT => {
            assert(seq!['D', 'R', 'A', 'F', 'T'].len() != seq!['A', 'C', 'T', 'I', 'V', 'E'].len());
        },
    }
}

#[derive(Debug, Clone)]
pub struct MetaObject {
    /// The handle of the metaobject definition.
    pub definition_type: String,
    pub capabilities: Capabilities,
    pub handle: String,
    /// One value per key of the definition.
    pub fields: Vec<Field>,
}

#[derive(Debug, Clone)]
pub struct MetaobjectField {
    /// The key of the field shown as the display name.
    pub key: String,
}

#[derive(Debug, Clone)]
pub struct Field {
    pub key: String,
    pub value: String,
}

#[derive(Debug, Clone)]
pub struct Capabilities {
    pub publishable: MetaobjectCapabilityDataPublishableInput,
}

#[derive(Debug, Clone)]
pub struct MetaobjectCapabilityOnlineStoreInput {
    pub template_suffix: Option<String>,
}

#[derive(Debug, Clone)]
pub struct MetaobjectCapabilityDataPublishableInput {
    pub status: String,
}

#[derive(Debug, Clone)]
pub struct NewMetaObjectInfo {
    pub id: Option<String>,
    pub handle: Option<String>,
}

/// The variables of `metaobjectCreate`.
#[derive(Debug, Clone)]
pub struct NewMetaObject {
    pub metaobject: MetaObject,
}

#[derive(Debug)]
pub struct NewMetaObjectResponse {
    pub metaobject: Option<NewMetaObjectInfo>,
    pub user_errors: Option<Vec<UserError>>,
}

/// The answer of the `metaobjectCreate` mutation.
#[derive(Debug)]
pub struct NewMetaObjectMutationResponse {
    pub metaobject_create: Option<NewMetaObjectResponse>,
}

/// The created metaobject, or an empty description (no id, no handle)
/// when the response has none.
pub open spec fn spec_created_metaobject(resp: NewMetaObjectMutationResponse) -> NewMetaObjectInfo {
    match resp.metaobject_create {
        Some(c) => match c.metaobject {
            Some(m) => m,
            None => NewMetaObjectInfo { id: None, handle: None },
        },
        None => NewMetaObjectInfo { id: None, handle: None },
    }
}

/// The id and handle of the created metaobject (see
/// `spec_created_metaobject`).
pub fn create_metaobject_outcome(resp: NewMetaObjectMutationResponse) -> (r: NewMetaObjectInfo)
    ensures
        r == spec_created_metaobject(resp),
{
    match resp.metaobject_create {
        Some(c) => match c.metaobject {
            Some(m) => m,
            None => NewMetaObjectInfo { id: None, handle: None },
        },
        None => NewMetaObjectInfo { id: None, handle: None },
    }
}

} // verus!

verus! {

/// One field of a metaobject: its key and value.
pub open spec fn spec_field_json(f: Field) -> JsonView {
    JsonView::Object(seq![("key"@, JsonView::Str(f.key@)), ("value"@, JsonView::Str(f.value@))])
}

pub open spec fn spec_fields_json(fs: Seq<Field>) -> Seq<JsonView> {
    fs.map_values(|f: Field| spec_field_json(f))
}

/// Variables of `metaobjectCreate`: the metaobject with its type, its
/// publishable status, its handle and its fields in order.
pub open spec fn spec_metaobject_create_variables(m: MetaObject) -> JsonView {
    JsonView::Object(
        seq![
            ("metaobject"@, JsonView::Object(
                seq![
                    ("type"@, JsonView::Str(m.definition_type@)),
                    ("capabilities"@, JsonView::Object(
                        seq![("publishable"@, JsonView::Object(
                            seq![("status"@, JsonView::Str(m.capabilities.publishable.status@))],
                        ))],
                    )),
                    ("handle"@, JsonView::Str(m.handle@)),
                    ("fields"@, JsonView::Array(spec_fields_json(m.fields@))),
                ],
            )),
        ],
    )
}

pub fn metaobject_create_variables(m: &MetaObject) -> (r: JsonValue)
    ensures
        r@ == spec_metaobject_create_variables(*m),
{
    let fs = &m.fields;
    let mut out = new_items();
    let mut i: usize = 0;
    while i < fs.len()
        invariant
            i <= fs.len(),
            models(out@) == spec_fields_json(fs@.take(i as int)),
        decreases fs.len() - i,
    {
        push_item(&mut out, jobject2("key", jstr(fs[i].key.as_str()), "value", jstr(fs[i].value.as_str())));
        assert(spec_fields_json(fs@.take(i + 1)) =~= spec_fields_json(fs@.take(i as int)).push(
            spec_field_json(fs@[i as int]),
        ));
        i = i + 1;
    }
    assert(fs@.take(fs.len() as int) == fs@);
    let caps = jobject1("publishable", jobject1("status", jstr(m.capabilities.publishable.status.as_str())));
    jobject1(
        "metaobject",
        jobject4("type", jstr(m.definition_type.as_str()), "capabilities", caps, "handle", jstr(m.handle.as_str()), "fields", jarray(out)),
    )
}

} // verus!
verus! {

/// `metaobjectCreate` creates the metaobject as given: its type, handle and
/// publishable status, and every field in order, the k-th carrying the k-th
/// field's key and value.
pub proof fn lemma_metaobject_create_sends_every_field(m: MetaObject, r: JsonView)
    requires
        r == spec_metaobject_create_variables(m),
    ensures
        crate::json::spec_member_of(r, "metaobject"@) matches Some(mo) && {
            &&& crate::json::spec_member_of(mo, "type"@) == Some(JsonView::Str(m.definition_type@))
            &&& crate::json::spec_member_of(mo, "handle"@) == Some(JsonView::Str(m.handle@))
            &&& crate::json::spec_member_of(mo, "capabilities"@) matches Some(caps) && crate::json::spec_member_of(
                caps,
                "publishable"@,
            ) matches Some(p) && crate::json::spec_member_of(p, "status"@) == Some(
                JsonView::Str(m.capabilities.publishable.status@),
            )
            &&& crate::json::spec_member_of(mo, "fields"@) matches Some(JsonView::Array(fs)) && fs.len()
                == m.fields@.len() && forall|k: int|
                0 <= k < fs.len() ==> {
                    &&& crate::json::spec_member_of(#[trigger] fs[k], "key"@) == Some(JsonView::Str(m.fields@[k].key@))
                    &&& crate::json::spec_member_of(fs[k], "value"@) == Some(JsonView::Str(m.fields@[k].value@))
                }
        },
{
    reveal_strlit("metaobject");
    reveal_strlit("type");
    reveal_strlit("capabilities");
    reveal_strlit("publishable");
    reveal_strlit("status");
    reveal_strlit("handle");
    reveal_strlit("fields");
    reveal_strlit("key");
    reveal_strlit("value");
    reveal_with_fuel(crate::json::spec_find_member, 5);
    assert("type"@.len() == 4 && "capabilities"@.len() == 12 && "handle"@.len() == 6 && "fields"@.len() == 6);
    assert("handle"@[0] != "fields"@[0]);
    assert("key"@.len() != "value"@.len());
    let fs = spec_fields_json(m.fields@);
    assert forall|k: int| 0 <= k < fs.len() implies {
        &&& crate::json::spec_member_of(#[trigger] fs[k], "key"@) == Some(JsonView::Str(m.fields@[k].key@))
        &&& crate::json::spec_member_of(fs[k], "value"@) == Some(JsonView::Str(m.fields@[k].value@))
    } by {
        assert(fs[k] == spec_field_json(m.fields@[k]));
    }
}

} // verus!
