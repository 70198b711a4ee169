//! B2B companies, their contacts and locations.
use vstd::prelude::*;
use crate::error::AppError;
use crate::graphql::{
    spec_created_id, created_id, spec_user_error_check, user_error_check, spec_first_edge_node_id,
    first_edge_node_id,
};
use crate::json::{
    JsonValue, JsonView, models, member_models, new_items, push_item, new_members, push_member,
    push_opt_str_member, jobject, jobject1, jobject2, jobject3, jarray, jstr, jstr_or_null, opt_str_view, spec_opt_member,
    spec_str_or_null, spec_bool_or_null, jbool_or_null, spec_str_array_or_null, jstr_array_or_null,
    spec_opt_value_member, opt_model, push_opt_value_member, push_opt_string_member,
};
use crate::queries::opt_view;

verus! {

#[derive(Debug, Clone)]
pub struct CompanyContactRoleAssignment {
    pub company_contact_role_id: Option<String>,
    pub company_location_id: String,
}

#[derive(Debug, Clone)]
pub struct CompanyAddressInput {
    pub address1: String,
    pub address2: Option<String>,
    pub city: String,
    pub province_code: Option<String>,
    pub country_code: String,
    pub zip: String,
    pub recipient: Option<String>,
    pub first_name: Option<String>,
    pub last_name: Option<String>,
    pub phone: Option<String>,
}

#[derive(Debug, Clone)]
pub struct CompanyLocationPaymentTermsTemplateInput {
    /// Shopify GID for a payment terms template
    pub payment_terms_template_id: Option<String>,
}

#[derive(Debug, Clone)]
pub struct CompanyLocationBuyerExperienceConfigInput {
    pub checkout_to_draft: Option<bool>,
    pub edit_order_enabled: Option<bool>,
    pub pay_now_only: Option<bool>,
}

#[derive(Debug, Clone)]
pub struct CompanyLocationInput {
    pub name: String,
    pub external_id: Option<String>,
    pub phone: Option<String>,
    pub billing_address: Option<CompanyAddressInput>,
    pub shipping_address: Option<CompanyAddressInput>,
    pub tax_exemptions: Option<Vec<String>>,
    pub buyer_experience_configuration: Option<CompanyLocationBuyerExperienceConfigInput>,
}

#[derive(Debug, Clone)]
pub struct PurchasingCompanyInput {
    /// Shopify GID
    pub company_contact_id: Option<String>,
    /// Shopify GID
    pub company_id: Option<String>,
    /// Shopify GID
    pub company_location_id: Option<String>,
}

/// Variables of `companyContactCreate`: the company, and a contact input
/// naming the customer with its title and locale when given.
pub open spec fn spec_company_contact_variables(
    company_gid: Seq<char>,
    customer_gid: Seq<char>,
    title: Option<Seq<char>>,
    locale: Option<Seq<char>>,
) -> JsonView {
    JsonView::Object(
        seq![
            ("companyId"@, JsonView::Str(company_gid)),
            ("input"@, JsonView::Object(
                seq![("customerId"@, JsonView::Str(customer_gid))] + spec_opt_member("title"@, title)
                    + spec_opt_member("locale"@, locale),
            )),
        ],
    )
}

pub fn company_contact_create_variables(
    company_gid: &str,
    customer_gid: &str,
    title: Option<&str>,
    locale: Option<&str>,
) -> (r: JsonValue)
    ensures
        r@ == spec_company_contact_variables(company_gid@, customer_gid@, opt_str_view(title), opt_str_view(locale)),
{
    let mut contact = new_members();
    push_member(&mut contact, "customerId", jstr(customer_gid));
    assert(member_models(contact@) =~= seq![("customerId"@, JsonView::Str(customer_gid@))]);
    push_opt_str_member(&mut contact, "title", title);
    push_opt_str_member(&mut contact, "locale", locale);
    jobject2("companyId", jstr(company_gid), "input", jobject(contact))
}

/// The new contact's GID from a `companyContactCreate` response.
pub fn company_contact_create_outcome(resp: &JsonValue) -> (r: Result<String, AppError>)
    ensures
        spec_created_id(
            r,
            *resp,
            "companyContactCreate"@,
            "companyContact"@,
            "No companyContact ID in companyContactCreate response"@,
        ),
{
    created_id(
        resp,
        "companyContactCreate",
        "companyContact",
        "No companyContact ID in companyContactCreate response",
    )
}

/// `{companyContactRoleId, companyLocationId}`, the role id being `null`
/// when absent.
pub open spec fn spec_role_assignment_json(a: CompanyContactRoleAssignment) -> JsonView {
    JsonView::Object(
        seq![
            ("companyContactRoleId"@, spec_str_or_null(a.company_contact_role_id)),
            ("companyLocationId"@, JsonView::Str(a.company_location_id@)),
        ],
    )
}

/// Variables of `companyContactRoleAssign`.
pub open spec fn spec_assign_roles_variables(
    company_contact_gid: Seq<char>,
    roles: Seq<CompanyContactRoleAssignment>,
) -> JsonView {
    JsonView::Object(
        seq![
            ("companyContactId"@, JsonView::Str(company_contact_gid)),
            ("rolesToAssign"@, JsonView::Array(
                roles.map_values(|a: CompanyContactRoleAssignment| spec_role_assignment_json(a)),
            )),
        ],
    )
}

fn role_assignment_json(a: &CompanyContactRoleAssignment) -> (r: JsonValue)
    ensures
        r@ == spec_role_assignment_json(*a),
{
    jobject2(
        "companyContactRoleId",
        jstr_or_null(&a.company_contact_role_id),
        "companyLocationId",
        jstr(a.company_location_id.as_str()),
    )
}

pub fn company_contact_assign_roles_variables(company_contact_gid: &str, roles: &Vec<CompanyContactRoleAssignment>) -> (r:
    JsonValue)
    ensures
        r@ == spec_assign_roles_variables(company_contact_gid@, roles@),
{
    let mut items = new_items();
    let mut i: usize = 0;
    while i < roles.len()
        invariant
            i <= roles.len(),
            models(items@) == roles@.take(i as int).map_values(
                |a: CompanyContactRoleAssignment| spec_role_assignment_json(a),
            ),
        decreases roles.len() - i,
    {
        push_item(&mut items, role_assignment_json(&roles[i]));
        assert(roles@.take(i + 1).map_values(|a: CompanyContactRoleAssignment| spec_role_assignment_json(a))
            =~= roles@.take(i as int).map_values(|a: CompanyContactRoleAssignment| spec_role_assignment_json(a)).push(
            spec_role_assignment_json(roles@[i as int]),
        ));
        i = i + 1;
    }
    assert(roles@.take(roles.len() as int) == roles@);
    jobject2("companyContactId", jstr(company_contact_gid), "rolesToAssign", jarray(items))
}

/// The user-error check of a `companyContactRoleAssign` response.
pub fn company_contact_assign_roles_outcome(resp: &JsonValue) -> (r: Result<(), AppError>)
    ensures
        spec_user_error_check(r, *resp, "companyContactRoleAssign"@),
{
    user_error_check(resp, "companyContactRoleAssign")
}

/// A company address as the `CompanyAddressInput` GraphQL input: the
/// optional fields appear only when given.
pub open spec fn spec_company_address_json(a: CompanyAddressInput) -> JsonView {
    JsonView::Object(
        seq![("address1"@, JsonView::Str(a.address1@))]
            + spec_opt_member("address2"@, opt_view(a.address2))
            + seq![("city"@, JsonView::Str(a.city@))]
            + spec_opt_member("provinceCode"@, opt_view(a.province_code))
            + seq![("countryCode"@, JsonView::Str(a.country_code@)), ("zip"@, JsonView::Str(a.zip@))]
            + spec_opt_member("recipient"@, opt_view(a.recipient))
            + spec_opt_member("firstName"@, opt_view(a.first_name))
            + spec_opt_member("lastName"@, opt_view(a.last_name))
            + spec_opt_member("phone"@, opt_view(a.phone)),
    )
}

pub fn company_address_json(a: &CompanyAddressInput) -> (r: JsonValue)
    ensures
        r@ == spec_company_address_json(*a),
{
    let mut m = new_members();
    push_member(&mut m, "address1", jstr(a.address1.as_str()));
    push_opt_string_member(&mut m, "address2", &a.address2);
    push_member(&mut m, "city", jstr(a.city.as_str()));
    push_opt_string_member(&mut m, "provinceCode", &a.province_code);
    push_member(&mut m, "countryCode", jstr(a.country_code.as_str()));
    push_member(&mut m, "zip", jstr(a.zip.as_str()));
    push_opt_string_member(&mut m, "recipient", &a.recipient);
    push_opt_string_member(&mut m, "firstName", &a.first_name);
    push_opt_string_member(&mut m, "lastName", &a.last_name);
    push_opt_string_member(&mut m, "phone", &a.phone);
    assert(member_models(m@) =~= seq![("address1"@, JsonView::Str(a.address1@))]
        + spec_opt_member("address2"@, opt_view(a.address2))
        + seq![("city"@, JsonView::Str(a.city@))]
        + spec_opt_member("provinceCode"@, opt_view(a.province_code))
        + seq![("countryCode"@, JsonView::Str(a.country_code@)), ("zip"@, JsonView::Str(a.zip@))]
        + spec_opt_member("recipient"@, opt_view(a.recipient))
        + spec_opt_member("firstName"@, opt_view(a.first_name))
        + spec_opt_member("lastName"@, opt_view(a.last_name))
        + spec_opt_member("phone"@, opt_view(a.phone)));
    jobject(m)
}

/// The buyer experience settings, each `null` when not given.
pub open spec fn spec_buyer_experience_json(c: CompanyLocationBuyerExperienceConfigInput) -> JsonView {
    JsonView::Object(
        seq![
            ("checkoutToDraft"@, spec_bool_or_null(c.checkout_to_draft)),
            ("editOrderEnabled"@, spec_bool_or_null(c.edit_order_enabled)),
            ("payNowOnly"@, spec_bool_or_null(c.pay_now_only)),
        ],
    )
}

pub open spec fn spec_opt_address_json(a: Option<CompanyAddressInput>) -> Option<JsonView> {
    match a {
        Some(x) => Some(spec_company_address_json(x)),
        None => None,
    }
}

pub open spec fn spec_opt_buyer_experience_json(c: Option<CompanyLocationBuyerExperienceConfigInput>) -> Option<JsonView> {
    match c {
        Some(x) => Some(spec_buyer_experience_json(x)),
        None => None,
    }
}

pub open spec fn spec_opt_str_array(o: Option<Vec<String>>) -> Option<JsonView> {
    match o {
        Some(v) => Some(spec_str_array_or_null(Some(v))),
        None => None,
    }
}

/// A company location as the `CompanyLocationInput` GraphQL input: the
/// optional fields appear only when given.
pub open spec fn spec_company_location_json(input: CompanyLocationInput) -> JsonView {
    JsonView::Object(
        seq![("name"@, JsonView::Str(input.name@))]
            + spec_opt_member("externalId"@, opt_view(input.external_id))
            + spec_opt_member("phone"@, opt_view(input.phone))
            + spec_opt_value_member("billingAddress"@, spec_opt_address_json(input.billing_address))
            + spec_opt_value_member("shippingAddress"@, spec_opt_address_json(input.shipping_address))
            + spec_opt_value_member("taxExemptions"@, spec_opt_str_array(input.tax_exemptions))
            + spec_opt_value_member(
                "buyerExperienceConfiguration"@,
                spec_opt_buyer_experience_json(input.buyer_experience_configuration),
            ),
    )
}

fn opt_address_json(a: &Option<CompanyAddressInput>) -> (r: Option<JsonValue>)
    ensures
        opt_model(r) == spec_opt_address_json(*a),
{
    match a {
        Some(x) => Some(company_address_json(x)),
        None => None,
    }
}

pub fn company_location_json(input: &CompanyLocationInput) -> (r: JsonValue)
    ensures
        r@ == spec_company_location_json(*input),
{
    let mut m = new_members();
    push_member(&mut m, "name", jstr(input.name.as_str()));
    push_opt_string_member(&mut m, "externalId", &input.external_id);
    push_opt_string_member(&mut m, "phone", &input.phone);
    push_opt_value_member(&mut m, "billingAddress", opt_address_json(&input.billing_address));
    push_opt_value_member(&mut m, "shippingAddress", opt_address_json(&input.shipping_address));
    let tax = match &input.tax_exemptions {
        Some(v) => Some(jstr_array_or_null(&Some(v.clone()))),
        None => None,
    };
    push_opt_value_member(&mut m, "taxExemptions", tax);
    let buyer = match &input.buyer_experience_configuration {
        Some(c) => Some(jobject3(
            "checkoutToDraft",
            jbool_or_null(c.checkout_to_draft),
            "editOrderEnabled",
            jbool_or_null(c.edit_order_enabled),
            "payNowOnly",
            jbool_or_null(c.pay_now_only),
        )),
        None => None,
    };
    push_opt_value_member(&mut m, "buyerExperienceConfiguration", buyer);
    assert(member_models(m@) =~= seq![("name"@, JsonView::Str(input.name@))]
        + spec_opt_member("externalId"@, opt_view(input.external_id))
        + spec_opt_member("phone"@, opt_view(input.phone))
        + spec_opt_value_member("billingAddress"@, spec_opt_address_json(input.billing_address))
        + spec_opt_value_member("shippingAddress"@, spec_opt_address_json(input.shipping_address))
        + spec_opt_value_member("taxExemptions"@, spec_opt_str_array(input.tax_exemptions))
        + spec_opt_value_member(
            "buyerExperienceConfiguration"@,
            spec_opt_buyer_experience_json(input.buyer_experience_configuration),
        ));
    jobject(m)
}

/// Variables of `companyLocationCreate`: the company and the location input.
pub fn company_location_create_variables(company_gid: &str, input: &CompanyLocationInput) -> (r: JsonValue)
    ensures
        r@ == JsonView::Object(
            seq![("companyId"@, JsonView::Str(company_gid@)), ("input"@, spec_company_location_json(*input))],
        ),
{
    jobject2("companyId", jstr(company_gid), "input", company_location_json(input))
}

/// The new location's GID from a `companyLocationCreate` response.
pub fn company_location_create_outcome(resp: &JsonValue) -> (r: Result<String, AppError>)
    ensures
        spec_created_id(
            r,
            *resp,
            "companyLocationCreate"@,
            "companyLocation"@,
            "No companyLocation ID in companyLocationCreate response"@,
        ),
{
    created_id(
        resp,
        "companyLocationCreate",
        "companyLocation",
        "No companyLocation ID in companyLocationCreate response",
    )
}

/// Variables of `paymentTermsCreate` for a company location.
pub fn payment_terms_variables(location_gid: &str, payment_terms_template_id: &str) -> (r: JsonValue)
    ensures
        r@ == JsonView::Object(
            seq![
                ("referenceId"@, JsonView::Str(location_gid@)),
                ("paymentTermsAttributes"@, JsonView::Object(
                    seq![("paymentTermsTemplateId"@, JsonView::Str(payment_terms_template_id@))],
                )),
            ],
        ),
{
    jobject2(
        "referenceId",
        jstr(location_gid),
        "paymentTermsAttributes",
        jobject1("paymentTermsTemplateId", jstr(payment_terms_template_id)),
    )
}

/// The user-error check of a `paymentTermsCreate` response.
pub fn payment_terms_create_outcome(resp: &JsonValue) -> (r: Result<(), AppError>)
    ensures
        spec_user_error_check(r, *resp, "paymentTermsCreate"@),
{
    user_error_check(resp, "paymentTermsCreate")
}

/// The new company's GID from a `companyCreate` response.
pub fn company_create_outcome(resp: &JsonValue) -> (r: Result<String, AppError>)
    ensures
        spec_created_id(r, *resp, "companyCreate"@, "company"@, "No company ID in companyCreate response"@),
{
    created_id(resp, "companyCreate", "company", "No company ID in companyCreate response")
}

/// The GID of the first company a companies query found.
pub fn company_gid_of_companies(resp: &JsonValue) -> (r: Option<String>)
    ensures
        opt_view(r) == spec_first_edge_node_id(*resp, "companies"@),
{
    first_edge_node_id(resp, "companies")
}

} // verus!
verus! {

/// `companyContactRoleAssign` assigns every given role, in order: one object
/// per assignment, the k-th naming the k-th assignment's location and role
/// (`null` when no role is given), for the given contact.
pub proof fn lemma_assign_roles_sends_every_role(
    company_contact_gid: Seq<char>,
    roles: Seq<CompanyContactRoleAssignment>,
    r: JsonView,
)
    requires
        r == spec_assign_roles_variables(company_contact_gid, roles),
    ensures
        crate::json::spec_member_of(r, "companyContactId"@) == Some(JsonView::Str(company_contact_gid)),
        crate::json::spec_member_of(r, "rolesToAssign"@) matches Some(JsonView::Array(a)) && a.len() == roles.len()
            && forall|k: int|
            0 <= k < a.len() ==> {
                &&& crate::json::spec_member_of(#[trigger] a[k], "companyLocationId"@) == Some(
                    JsonView::Str(roles[k].company_location_id@),
                )
                &&& crate::json::spec_member_of(a[k], "companyContactRoleId"@) == Some(
                    match roles[k].company_contact_role_id {
                        Some(id) => JsonView::Str(id@),
                        None => JsonView::Null,
                    },
                )
            },
{
    reveal_strlit("companyContactId");
    reveal_strlit("rolesToAssign");
    reveal_strlit("companyLocationId");
    reveal_strlit("companyContactRoleId");
    reveal_with_fuel(crate::json::spec_find_member, 3);
    assert("companyContactId"@.len() != "rolesToAssign"@.len());
    assert("companyContactRoleId"@.len() != "companyLocationId"@.len());
}

} // verus!
verus! {

/// `companyContactCreate` makes the given customer a contact of the given
/// company.
pub proof fn lemma_company_contact_create_arguments(
    company_gid: Seq<char>,
    customer_gid: Seq<char>,
    title: Option<Seq<char>>,
    locale: Option<Seq<char>>,
    r: JsonView,
)
    requires
        r == spec_company_contact_variables(company_gid, customer_gid, title, locale),
    ensures
        crate::json::spec_member_of(r, "companyId"@) == Some(JsonView::Str(company_gid)),
        crate::json::spec_member_of(r, "input"@) matches Some(input) && crate::json::spec_member_of(
            input,
            "customerId"@,
        ) == Some(JsonView::Str(customer_gid)),
{
    reveal_strlit("companyId");
    reveal_strlit("input");
    reveal_strlit("customerId");
    reveal_with_fuel(crate::json::spec_find_member, 2);
    assert("companyId"@.len() != "input"@.len());
    let ms = seq![("customerId"@, JsonView::Str(customer_gid))] + spec_opt_member("title"@, title) + spec_opt_member(
        "locale"@,
        locale,
    );
    assert(ms[0] == ("customerId"@, JsonView::Str(customer_gid)));
}

/// `companyLocationCreate` creates a location with the given name for the
/// given company.
pub proof fn lemma_company_location_create_arguments(company_gid: Seq<char>, input: CompanyLocationInput, r: JsonView)
    requires
        r == JsonView::Object(
            seq![("companyId"@, JsonView::Str(company_gid)), ("input"@, spec_company_location_json(input))],
        ),
    ensures
        crate::json::spec_member_of(r, "companyId"@) == Some(JsonView::Str(company_gid)),
        crate::json::spec_member_of(r, "input"@) matches Some(i) && crate::json::spec_member_of(i, "name"@) == Some(
            JsonView::Str(input.name@),
        ),
{
    reveal_strlit("companyId");
    reveal_strlit("input");
    reveal_strlit("name");
    reveal_with_fuel(crate::json::spec_find_member, 2);
    assert("companyId"@.len() != "input"@.len());
    let ms = seq![("name"@, JsonView::Str(input.name@))] + spec_opt_member("externalId"@, opt_view(input.external_id))
        + spec_opt_member("phone"@, opt_view(input.phone)) + spec_opt_value_member(
        "billingAddress"@,
        spec_opt_address_json(input.billing_address),
    ) + spec_opt_value_member("shippingAddress"@, spec_opt_address_json(input.shipping_address))
        + spec_opt_value_member("taxExemptions"@, spec_opt_str_array(input.tax_exemptions)) + spec_opt_value_member(
        "buyerExperienceConfiguration"@,
        spec_opt_buyer_experience_json(input.buyer_experience_configuration),
    );
    assert(ms[0] == ("name"@, JsonView::Str(input.name@)));
}

} // verus!
