//! Metaobject definitions: storefront and admin access, with their GraphQL enum texts.
use vstd::prelude::*;
use crate::error::{AppError, UserError, empty_anyhow_error};
use crate::text::{chars_of, chars_equal, string_from_slice};

verus! {

#[derive(Debug, Clone, PartialEq, Eq, Structural)]
pub enum STOREFRONT {
    /// `NONE`
    NONE,
    /// `PUBLIC_READ`
    PUBLICREAD,
}

impl STOREFRONT {
    /// The value `from_str` gives for a string.
    pub open spec fn spec_from_str(s: Seq<char>) -> STOREFRONT {
        if s == seq!['N', 'O', 'N', 'E'] {
            STOREFRONT::NONE
        } else {
            STOREFRONT::PUBLICREAD
        }
    }

    /// The text `to_string` gives for a value.
    pub open spec fn spec_to_string(self) -> Seq<char> {
        match self {
            STOREFRONT::NONE => seq!['N', 'O', 'N', 'E'],
            STOREFRONT::PUBLICREAD => seq!['P', 'U', 'B', 'L', 'I', 'C', '_', 'R', 'E', 'A', 'D'],
        }
    }

    /// Reads the GraphQL enum text: "NONE" gives `NONE`; any other text gives `PUBLICREAD`.
    pub fn from_str(role: &str) -> (r: STOREFRONT)
        ensures
            r == STOREFRONT::spec_from_str(role@),
    {
        let cs = chars_of(role);
        if chars_equal(&cs, &['N', 'O', 'N', 'E']) {
            STOREFRONT::NONE
        } else {
            STOREFRONT::PUBLICREAD
        }
    }

    /// The GraphQL enum text of the value.
    pub fn to_string(&self) -> (r: String)
        ensures
            r@ == self.spec_to_string(),
    {
        let text: &[char] = match self {
            STOREFRONT::NONE => &['N', 'O', 'N', 'E'],
            STOREFRONT::PUBLICREAD => &['P', 'U', 'B', 'L', 'I', 'C', '_', 'R', 'E', 'A', 'D'],
        };
        string_from_slice(text)
    }
}

/// Reading back the text of a value gives the value again.
pub proof fn lemma_storefront_round_trip(v: STOREFRONT)
    ensures
        STOREFRONT::spec_from_str(v.spec_to_string()) == v,
{
    match v {
        STOREFRONT::NONE => {},
        STOREFRONT::PUBLICREAD => {
            assert(seq!['P', 'U', 'B', 'L', 'I', 'C', '_', 'R', 'E', 'A', 'D'].len() != seq!['N', 'O', 'N', 'E'].len());
        },
    }
}

#[derive(Debug, Clone, PartialEq, Eq, Structural)]
pub enum ADMIN {
    /// `MERCHANT_READ`
    MERCHANTREAD,
    /// `MERCHANT_READ_WRITE`
    MERCHANTREADWRITE,
    /// `PRIVATE`
    PRIVATE,
    /// `PUBLIC_READ`
    PUBLICREAD,
    /// `PUBLIC_READ_WRITE`
    PUBLICREADWRITE,
}

impl ADMIN {
    /// The value `from_str` gives for a string.
    pub open spec fn spec_from_str(s: Seq<char>) -> ADMIN {
        if s == seq!['M', 'E', 'R', 'C', 'H', 'A', 'N', 'T', '_', 'R', 'E', 'A', 'D'] {
            ADMIN::MERCHANTREAD
        } else if s == seq!['M', 'E', 'R', 'C', 'H', 'A', 'N', 'T', '_', 'R', 'E', 'A', 'D', '_', 'W', 'R', 'I', 'T', 'E'] {
            ADMIN::MERCHANTREADWRITE
        } else {
            ADMIN::PRIVATE
        }
    }

    /// The text `to_string` gives for a value.
    pub open spec fn spec_to_string(self) -> Seq<char> {
        match self {
            ADMIN::MERCHANTREAD => seq!['M', 'E', 'R', 'C', 'H', 'A', 'N', 'T', '_', 'R', 'E', 'A', 'D'],
            ADMIN::MERCHANTREADWRITE => seq!['M', 'E', 'R', 'C', 'H', 'A', 'N', 'T', '_', 'R', 'E', 'A', 'D', '_', 'W', 'R', 'I', 'T', 'E'],
            ADMIN::PRIVATE => seq!['P', 'R', 'I', 'V', 'A', 'T', 'E'],
            ADMIN::PUBLICREAD => seq!['P', 'U', 'B', 'L', 'I', 'C', '_', 'R', 'E', 'A', 'D'],
            ADMIN::PUBLICREADWRITE => seq!['P', 'U', 'B', 'L', 'I', 'C', '_', 'R', 'E', 'A', 'D', '_', 'W', 'R', 'I', 'T', 'E'],
        }
    }

    /// Reads the GraphQL enum text: "MERCHANT_READ" gives `MERCHANTREAD`; "MERCHANT_READ_WRITE" gives `MERCHANTREADWRITE`; any other text gives `PRIVATE`.
    pub fn from_str(role: &str) -> (r: ADMIN)
        ensures
            r == ADMIN::spec_from_str(role@),
    {
        let cs = chars_of(role);
        if chars_equal(&cs, &['M', 'E', 'R', 'C', 'H', 'A', 'N', 'T', '_', 'R', 'E', 'A', 'D']) {
            ADMIN::MERCHANTREAD
        } else if chars_equal(&cs, &['M', 'E', 'R', 'C', 'H', 'A', 'N', 'T', '_', 'R', 'E', 'A', 'D', '_', 'W', 'R', 'I', 'T', 'E']) {
            ADMIN::MERCHANTREADWRITE
        } else {
            ADMIN::PRIVATE
        }
    }

    /// The GraphQL enum text of the value.
    pub fn to_string(&self) -> (r: String)
        ensures
            r@ == self.spec_to_string(),
    {
        let text: &[char] = match self {
            ADMIN::MERCHANTREAD => &['M', 'E', 'R', 'C', 'H', 'A', 'N', 'T', '_', 'R', 'E', 'A', 'D'],
            ADMIN::MERCHANTREADWRITE => &['M', 'E', 'R', 'C', 'H', 'A', 'N', 'T', '_', 'R', 'E', 'A', 'D', '_', 'W', 'R', 'I', 'T', 'E'],
            ADMIN::PRIVATE => &['P', 'R', 'I', 'V', 'A', 'T', 'E'],
            ADMIN::PUBLICREAD => &['P', 'U', 'B', 'L', 'I', 'C', '_', 'R', 'E', 'A', 'D'],
            ADMIN::PUBLICREADWRITE => &['P', 'U', 'B', 'L', 'I', 'C', '_', 'R', 'E', 'A', 'D', '_', 'W', 'R', 'I', 'T', 'E'],
        };
        string_from_slice(text)
    }
}

/// Reading back the text of a value gives the value again (for every value whose text is not mapped elsewhere).
pub proof fn lemma_admin_round_trip(v: ADMIN)
    requires
        !(v is PUBLICREAD),
        !(v is PUBLICREADWRITE),
    ensures
        ADMIN::spec_from_str(v.spec_to_string()) == v,
{
    match v {
        ADMIN::MERCHANTREAD => {},
        ADMIN::MERCHANTREADWRITE => {
            assert(seq!['M', 'E', 'R', 'C', 'H', 'A', 'N', 'T', '_', 'R', 'E', 'A', 'D', '_', 'W', 'R', 'I', 'T', 'E'].len() != seq!['M', 'E', 'R', 'C', 'H', 'A', 'N', 'T', '_', 'R', 'E', 'A', 'D'].len());
        },
        ADMIN::PRIVATE => {
            assert(seq!['P', 'R', 'I', 'V', 'A', 'T', 'E'].len() != seq!['M', 'E', 'R', 'C', 'H', 'A', 'N', 'T', '_', 'R', 'E', 'A', 'D'].len());
            assert(seq!['P', 'R', 'I', 'V', 'A', 'T', 'E'].len() != seq!['M', 'E', 'R', 'C', 'H', 'A', 'N', 'T', '_', 'R', 'E', 'A', 'D', '_', 'W', 'R', 'I', 'T', 'E'].len());
        },
        ADMIN::PUBLICREAD => {},
        ADMIN::PUBLICREADWRITE => {},
    }
}

#[derive(Debug, Clone)]
pub struct MetaObjectDefinition {
    /// required
    pub definition: Definition,
}

#[derive(Debug, Clone)]
pub struct Definition {
    /// required (3-255 alphanumeric, hyphen, underscore)
    pub meta_type: String,
    pub name: Option<String>,
    pub access: Option<Access>,
    pub display_name_key: Option<String>,
    pub capabilities: Option<Capabilities>,
    pub description: Option<String>,
    /// required
    pub field_definitions: Vec<FieldDefinition>,
}

#[derive(Debug, Clone)]
pub struct FieldDefinition {
    pub name: Option<String>,
    /// Required; 3 to 64 characters, fixed once created.
    pub key: String,
    /// Required: the metafield type, such as single_line_text_field.
    pub field_type: String,
    /// Required to reference other metaobjects.
    pub validations: Option<Vec<MetafieldDefininitionValidationInput>>,
}

#[derive(Debug, Clone)]
pub struct MetafieldDefininitionValidationInput {
    /// non-null
    pub name: Option<String>,
    pub value: Option<String>,
}

#[derive(Debug, Clone)]
pub struct Validation {
    /// non-null
    pub name: Option<String>,
    /// non-null
    pub validation_type: Option<String>,
    pub value: Option<String>,
}

#[derive(Debug, Clone)]
pub struct Capabilities {
    pub online_store: Option<OnlineStore>,
    pub renderable: Option<Renderable>,
    pub translatable: Option<Translatable>,
    pub publishable: Option<Publishable>,
}

#[derive(Debug, Clone)]
pub struct Publishable {
    pub enabled: bool,
}

#[derive(Debug, Clone)]
pub struct Translatable {
    pub enabled: bool,
}

#[derive(Debug, Clone)]
pub struct Renderable {
    pub enabled: bool,
    pub data: Option<MetaobjectCapabilityDefinitionDataRenderableInput>,
}

#[derive(Debug, Clone)]
pub struct MetaobjectCapabilityDefinitionDataRenderableInput {
    pub meta_description_key: Option<String>,
    pub meta_title_key: Option<String>,
}

#[derive(Debug, Clone)]
pub struct OnlineStore {
    pub enabled: bool,
    pub data: Option<URLHANDLE>,
}

#[derive(Debug, Clone)]
pub struct URLHANDLE {
    /// "/somehandle"
    pub url_handle: Option<String>,
}

#[derive(Debug, Clone)]
pub struct Access {
    /// Type ENUM ADMIN
    pub admin: Option<String>,
    /// Type ENUM STOREFRONT
    pub storefront: Option<String>,
}

#[derive(Debug, Clone)]
pub struct NewMetaObjectDefinition {
    pub id: Option<String>,
    pub name: Option<String>,
    pub def_type: Option<String>,
}

#[derive(Debug)]
pub struct MetaObjectDefinitionCreate {
    pub metaobject_definition: Option<NewMetaObjectDefinition>,
    pub user_errors: Option<Vec<UserError>>,
}

/// The answer of the `metaobjectDefinitionCreate` mutation.
#[derive(Debug)]
pub struct CreateMetaObjDefResponse {
    pub metaobjectdefinitioncreate: Option<MetaObjectDefinitionCreate>,
}

/// The id of the created definition, if the response has one.
pub open spec fn spec_created_definition_id(resp: CreateMetaObjDefResponse) -> Option<String> {
    match resp.metaobjectdefinitioncreate {
        Some(c) => match c.metaobject_definition {
            Some(d) => d.id,
            None => None,
        },
        None => None,
    }
}

/// The user errors of the response, if it lists them.
pub open spec fn spec_definition_user_errors(resp: CreateMetaObjDefResponse) -> Option<Seq<UserError>> {
    match resp.metaobjectdefinitioncreate {
        Some(c) => match c.user_errors {
            Some(errs) => Some(errs@),
            None => None,
        },
        None => None,
    }
}

/// What `metaobjectDefinitionCreate` answers: the new definition's id;
/// else the code of the first user error (such as "TAKEN" for a type
/// already defined); else `MetaObjectDefinitionCreateError`.
pub open spec fn spec_metaobject_definition_outcome(r: Result<String, AppError>, resp: CreateMetaObjDefResponse) -> bool {
    match spec_created_definition_id(resp) {
        Some(id) => r matches Ok(s) && s == id,
        None => match spec_definition_user_errors(resp) {
            Some(errs) => match errs[0].code {
                Some(code) => r matches Ok(s) && s == code,
                None => r matches Err(e) && e is MetaObjectDefinitionCreateError,
            },
            None => r matches Err(e) && e is MetaObjectDefinitionCreateError,
        },
    }
}

/// The new definition's GID or the code of the first user error (see
/// `spec_metaobject_definition_outcome`). A response with neither an id nor
/// a non-empty error list when it lists errors is not accepted.
pub fn create_metaobject_definition_outcome(resp: CreateMetaObjDefResponse) -> (r: Result<String, AppError>)
    requires
        spec_created_definition_id(resp) is None ==> match spec_definition_user_errors(resp) {
            Some(errs) => errs.len() > 0,
            None => true,
        },
    ensures
        spec_metaobject_definition_outcome(r, resp),
{
    match resp.metaobjectdefinitioncreate {
        Some(c) => {
            match c.metaobject_definition {
                Some(d) => match d.id {
                    Some(gid) => return Ok(gid),
                    None => {},
                },
                None => {},
            }
            match c.user_errors {
                Some(errs) => {
                    let mut errs = errs;
                    let first = errs.remove(0);
                    match first.code {
                        Some(code) => Ok(code),
                        None => Err(AppError::MetaObjectDefinitionCreateError(empty_anyhow_error())),
                    }
                },
                None => Err(AppError::MetaObjectDefinitionCreateError(empty_anyhow_error())),
            }
        },
        None => Err(AppError::MetaObjectDefinitionCreateError(empty_anyhow_error())),
    }
}

} // verus!
