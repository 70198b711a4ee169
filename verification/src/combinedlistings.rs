//! Combined listings (parent products grouping child products).
use vstd::prelude::*;
use crate::error::UserError;
use crate::json::{
    JsonValue, JsonView, models, member_models, new_items, push_item, new_members, push_member,
    push_opt_string_member, jobject, jobject2, jobject3, jarray, jstr, jstr_array, spec_opt_member, spec_str_items,
};
use crate::queries::opt_view;

verus! {

#[derive(Debug, Clone)]
pub struct CombinedParentProduct {
    pub handle: Option<String>,
    pub title: Option<String>,
    pub id: Option<String>,
}

#[derive(Debug, Clone)]
pub struct ChildProductRelationInput {
    /// The GID of the product to combine.
    pub child_product_id: String,
    pub selected_parent_option_values: Vec<SelectedVariantOptionInput>,
}

#[derive(Debug, Clone)]
pub struct SelectedVariantOptionInput {
    /// required
    pub name: String,
    /// required
    pub value: String,
    /// this could be a color metaobject ID for example
    pub linked_metafield_value: Option<String>,
}

#[derive(Debug, Clone)]
pub struct OptionsAndValues {
    /// for instance "color"
    pub name: String,
    /// The option values, matched by the selected variant options.
    pub values: Vec<String>,
}

impl Default for CombinedParentProduct {
    fn default() -> (r: CombinedParentProduct)
        ensures
            r.handle is None,
            r.title is None,
            r.id is None,
    {
        CombinedParentProduct { handle: None, title: None, id: None }
    }
}

#[derive(Debug)]
pub struct NewCombinedParentCreated {
    pub product: Option<CombinedParentProduct>,
    pub user_errors: Option<Vec<UserError>>,
}

/// The answer of the `productCreate` mutation that makes a combined-listing
/// parent.
#[derive(Debug)]
pub struct CombinedParentCreateResponse {
    pub product_create: Option<NewCombinedParentCreated>,
}

/// The created parent product, or a product with every field absent.
pub fn create_combined_listing_parent_outcome(resp: CombinedParentCreateResponse) -> (r: CombinedParentProduct)
    ensures
        match resp.product_create {
            Some(c) => match c.product {
                Some(p) => r == p,
                None => r.handle is None && r.title is None && r.id is None,
            },
            None => r.handle is None && r.title is None && r.id is None,
        },
{
    match resp.product_create {
        Some(c) => match c.product {
            Some(p) => p,
            None => CombinedParentProduct::default(),
        },
        None => CombinedParentProduct::default(),
    }
}

} // verus!

verus! {

/// One selected option of a child product: name, value, and the linked
/// metafield value when given.
pub open spec fn spec_selected_option_json(o: SelectedVariantOptionInput) -> JsonView {
    JsonView::Object(
        seq![("name"@, JsonView::Str(o.name@)), ("value"@, JsonView::Str(o.value@))] + spec_opt_member(
            "linkedMetafieldValue"@,
            opt_view(o.linked_metafield_value),
        ),
    )
}

pub open spec fn spec_selected_options_json(os: Seq<SelectedVariantOptionInput>) -> Seq<JsonView> {
    os.map_values(|o: SelectedVariantOptionInput| spec_selected_option_json(o))
}

/// One child product with its selected parent option values.
pub open spec fn spec_child_relation_json(c: ChildProductRelationInput) -> JsonView {
    JsonView::Object(
        seq![
            ("childProductId"@, JsonView::Str(c.child_product_id@)),
            ("selectedParentOptionValues"@, JsonView::Array(spec_selected_options_json(c.selected_parent_option_values@))),
        ],
    )
}

pub open spec fn spec_child_relations_json(cs: Seq<ChildProductRelationInput>) -> Seq<JsonView> {
    cs.map_values(|c: ChildProductRelationInput| spec_child_relation_json(c))
}

/// One option with its values.
pub open spec fn spec_option_values_json(o: OptionsAndValues) -> JsonView {
    JsonView::Object(seq![("name"@, JsonView::Str(o.name@)), ("values"@, JsonView::Array(spec_str_items(o.values@)))])
}

pub open spec fn spec_options_values_json(os: Seq<OptionsAndValues>) -> Seq<JsonView> {
    os.map_values(|o: OptionsAndValues| spec_option_values_json(o))
}

/// Variables of `combinedListingUpdate` that adds children: the parent, the
/// children and the options, in order.
pub open spec fn spec_combined_listing_update_variables(
    parent_gid: Seq<char>,
    added: Seq<ChildProductRelationInput>,
    options: Seq<OptionsAndValues>,
) -> JsonView {
    JsonView::Object(
        seq![
            ("parentProductId"@, JsonView::Str(parent_gid)),
            ("productsAdded"@, JsonView::Array(spec_child_relations_json(added))),
            ("optionsAndValues"@, JsonView::Array(spec_options_values_json(options))),
        ],
    )
}

fn selected_option_json(o: &SelectedVariantOptionInput) -> (r: JsonValue)
    ensures
        r@ == spec_selected_option_json(*o),
{
    let mut m = new_members();
    push_member(&mut m, "name", jstr(o.name.as_str()));
    push_member(&mut m, "value", jstr(o.value.as_str()));
    push_opt_string_member(&mut m, "linkedMetafieldValue", &o.linked_metafield_value);
    assert(member_models(m@) =~= seq![("name"@, JsonView::Str(o.name@)), ("value"@, JsonView::Str(o.value@))]
        + spec_opt_member("linkedMetafieldValue"@, opt_view(o.linked_metafield_value)));
    jobject(m)
}

fn child_relation_json(c: &ChildProductRelationInput) -> (r: JsonValue)
    ensures
        r@ == spec_child_relation_json(*c),
{
    let os = &c.selected_parent_option_values;
    let mut out = new_items();
    let mut i: usize = 0;
    while i < os.len()
        invariant
            i <= os.len(),
            models(out@) == spec_selected_options_json(os@.take(i as int)),
        decreases os.len() - i,
    {
        push_item(&mut out, selected_option_json(&os[i]));
        assert(spec_selected_options_json(os@.take(i + 1)) =~= spec_selected_options_json(os@.take(i as int)).push(
            spec_selected_option_json(os@[i as int]),
        ));
        i = i + 1;
    }
    assert(os@.take(os.len() as int) == os@);
    jobject2("childProductId", jstr(c.child_product_id.as_str()), "selectedParentOptionValues", jarray(out))
}

pub fn combined_listing_update_variables(
    parent_gid: &str,
    added: &Vec<ChildProductRelationInput>,
    options: &Vec<OptionsAndValues>,
) -> (r: JsonValue)
    ensures
        r@ == spec_combined_listing_update_variables(parent_gid@, added@, options@),
{
    let mut kids = new_items();
    let mut i: usize = 0;
    while i < added.len()
        invariant
            i <= added.len(),
            models(kids@) == spec_child_relations_json(added@.take(i as int)),
        decreases added.len() - i,
    {
        push_item(&mut kids, child_relation_json(&added[i]));
        assert(spec_child_relations_json(added@.take(i + 1)) =~= spec_child_relations_json(added@.take(i as int)).push(
            spec_child_relation_json(added@[i as int]),
        ));
        i = i + 1;
    }
    assert(added@.take(added.len() as int) == added@);
    let mut opts = new_items();
    let mut j: usize = 0;
    while j < options.len()
        invariant
            j <= options.len(),
            models(opts@) == spec_options_values_json(options@.take(j as int)),
        decreases options.len() - j,
    {
        let o = &options[j];
        push_item(&mut opts, jobject2("name", jstr(o.name.as_str()), "values", jstr_array(&o.values)));
        assert(spec_options_values_json(options@.take(j + 1)) =~= spec_options_values_json(options@.take(j as int)).push(
            spec_option_values_json(options@[j as int]),
        ));
        j = j + 1;
    }
    assert(options@.take(options.len() as int) == options@);
    jobject3("parentProductId", jstr(parent_gid), "productsAdded", jarray(kids), "optionsAndValues", jarray(opts))
}

} // verus!
verus! {

/// `combinedListingUpdate` adds every given child, in order, for the given
/// parent: one object per child naming it, with one object per selected
/// option (its name and value), and one object per option with its name.
pub proof fn lemma_combined_listing_sends_every_child(
    parent_gid: Seq<char>,
    added: Seq<ChildProductRelationInput>,
    options: Seq<OptionsAndValues>,
    r: JsonView,
)
    requires
        r == spec_combined_listing_update_variables(parent_gid, added, options),
    ensures
        crate::json::spec_member_of(r, "parentProductId"@) == Some(JsonView::Str(parent_gid)),
        crate::json::spec_member_of(r, "productsAdded"@) matches Some(JsonView::Array(a)) && a.len() == added.len()
            && forall|k: int|
            0 <= k < a.len() ==> {
                &&& crate::json::spec_member_of(#[trigger] a[k], "childProductId"@) == Some(
                    JsonView::Str(added[k].child_product_id@),
                )
                &&& crate::json::spec_member_of(a[k], "selectedParentOptionValues"@) matches Some(
                    JsonView::Array(sel),
                ) && sel.len() == added[k].selected_parent_option_values@.len() && forall|m: int|
                    0 <= m < sel.len() ==> {
                        &&& crate::json::spec_member_of(#[trigger] sel[m], "name"@) == Some(
                            JsonView::Str(added[k].selected_parent_option_values@[m].name@),
                        )
                        &&& crate::json::spec_member_of(sel[m], "value"@) == Some(
                            JsonView::Str(added[k].selected_parent_option_values@[m].value@),
                        )
                    }
            },
        crate::json::spec_member_of(r, "optionsAndValues"@) matches Some(JsonView::Array(o)) && o.len()
            == options.len() && forall|k: int|
            0 <= k < o.len() ==> crate::json::spec_member_of(#[trigger] o[k], "name"@) == Some(
                JsonView::Str(options[k].name@),
            ),
{
    reveal_strlit("parentProductId");
    reveal_strlit("productsAdded");
    reveal_strlit("optionsAndValues");
    reveal_strlit("childProductId");
    reveal_strlit("selectedParentOptionValues");
    reveal_strlit("name");
    reveal_strlit("value");
    reveal_with_fuel(crate::json::spec_find_member, 3);
    assert("parentProductId"@.len() != "productsAdded"@.len());
    assert("parentProductId"@.len() != "optionsAndValues"@.len());
    assert("productsAdded"@.len() != "optionsAndValues"@.len());
    assert("childProductId"@.len() != "selectedParentOptionValues"@.len());
    assert("name"@.len() != "value"@.len());
    let a = spec_child_relations_json(added);
    assert forall|k: int| 0 <= k < a.len() implies {
        &&& crate::json::spec_member_of(#[trigger] a[k], "childProductId"@) == Some(
            JsonView::Str(added[k].child_product_id@),
        )
        &&& crate::json::spec_member_of(a[k], "selectedParentOptionValues"@) matches Some(JsonView::Array(sel))
            && sel.len() == added[k].selected_parent_option_values@.len() && forall|m: int|
            0 <= m < sel.len() ==> {
                &&& crate::json::spec_member_of(#[trigger] sel[m], "name"@) == Some(
                    JsonView::Str(added[k].selected_parent_option_values@[m].name@),
                )
                &&& crate::json::spec_member_of(sel[m], "value"@) == Some(
                    JsonView::Str(added[k].selected_parent_option_values@[m].value@),
                )
            }
    } by {
        assert(a[k] == spec_child_relation_json(added[k]));
        let sel = spec_selected_options_json(added[k].selected_parent_option_values@);
        assert forall|m: int| 0 <= m < sel.len() implies {
            &&& crate::json::spec_member_of(#[trigger] sel[m], "name"@) == Some(
                JsonView::Str(added[k].selected_parent_option_values@[m].name@),
            )
            &&& crate::json::spec_member_of(sel[m], "value"@) == Some(
                JsonView::Str(added[k].selected_parent_option_values@[m].value@),
            )
        } by {
            let o = added[k].selected_parent_option_values@[m];
            assert(sel[m] == spec_selected_option_json(o));
            let ms = seq![("name"@, JsonView::Str(o.name@)), ("value"@, JsonView::Str(o.value@))]
                + spec_opt_member("linkedMetafieldValue"@, opt_view(o.linked_metafield_value));
            assert(ms[0] == ("name"@, JsonView::Str(o.name@)));
            assert(ms[1] == ("value"@, JsonView::Str(o.value@)));
        }
    }
    let o = spec_options_values_json(options);
    assert forall|k: int| 0 <= k < o.len() implies crate::json::spec_member_of(#[trigger] o[k], "name"@) == Some(
        JsonView::Str(options[k].name@),
    ) by {
        assert(o[k] == spec_option_values_json(options[k]));
    }
}

} // verus!
