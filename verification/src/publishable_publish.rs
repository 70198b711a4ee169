//! Publications and publishing resources to them.
use vstd::prelude::*;
use crate::PageInfo;
use crate::error::{AppError, is_other_error, other_error};
use crate::json::{JsonValue, JsonView, jobject1, jobject2, jstr};
use crate::queries::opt_view;
use crate::text::str_eq;

verus! {

#[derive(Debug, Clone)]
pub struct PublicationEdge {
    pub node: Publication,
    pub cursor: String,
}

#[derive(Debug, Clone)]
pub struct Publication {
    pub id: String,
    pub name: Option<String>,
    pub catalog: Option<Catalog>,
}

#[derive(Debug, Clone)]
pub struct Catalog {
    pub title: Option<String>,
}

/// One page of the shop's publications.
#[derive(Debug, Clone)]
pub struct Publications {
    pub edges: Vec<PublicationEdge>,
    pub nodes: Vec<Publication>,
    pub page_info: PageInfo,
}

/// The answer of the publications query.
#[derive(Debug, Clone)]
pub struct PublicationResponse {
    pub publications: Option<Publications>,
}

/// The publications of a page's edges, in order.
pub open spec fn spec_edge_nodes(edges: Seq<PublicationEdge>) -> Seq<Publication> {
    edges.map_values(|e: PublicationEdge| e.node)
}

/// The publications of one page and its page info; "No publications
/// found" when the response has no publications.
pub fn publications_page(resp: PublicationResponse) -> (r: Result<(Vec<Publication>, PageInfo), AppError>)
    ensures
        match resp.publications {
            Some(p) => r matches Ok((items, info)) && items@ == spec_edge_nodes(p.edges@) && info == p.page_info,
            None => r matches Err(e) && is_other_error(e, "No publications found"@),
        },
{
    match resp.publications {
        Some(p) => {
            let ghost all = p.edges@;
            let mut rest = p.edges;
            let mut items: Vec<Publication> = Vec::new();
            let n = rest.len();
            let mut i: usize = 0;
            while i < n
                invariant
                    n == all.len(),
                    i <= n,
                    rest@ == all.skip(i as int),
                    items@ == spec_edge_nodes(all.take(i as int)),
                decreases n - i,
            {
                let edge = rest.remove(0);
                assert(all.skip(i as int).skip(1) == all.skip(i + 1));
                items.push(edge.node);
                assert(spec_edge_nodes(all.take(i + 1)) =~= spec_edge_nodes(all.take(i as int)).push(all[i as int].node));
                i = i + 1;
            }
            assert(all.take(n as int) == all);
            Ok((items, p.page_info))
        },
        None => Err(other_error("No publications found")),
    }
}

/// The given id, or the empty text.
pub open spec fn spec_id_or_empty(id: Option<Seq<char>>) -> Seq<char> {
    match id {
        Some(g) => g,
        None => Seq::empty(),
    }
}

/// Variables of `publishablePublish`: the product and the publication to
/// publish it to (the empty id when none is given).
pub open spec fn spec_publishable_publish_variables(product_gid: Seq<char>, publication_id: Option<Seq<char>>) -> JsonView {
    JsonView::Object(
        seq![
            ("id"@, JsonView::Str(product_gid)),
            ("input"@, JsonView::Object(seq![("publicationId"@, JsonView::Str(spec_id_or_empty(publication_id)))])),
        ],
    )
}

pub fn publishable_publish_variables(product_gid: &str, publication_id: &Option<String>) -> (r: JsonValue)
    ensures
        r@ == spec_publishable_publish_variables(product_gid@, opt_view(*publication_id)),
{
    let pub_gid: &str = match publication_id {
        Some(g) => g.as_str(),
        None => "",
    };
    proof {
        reveal_strlit("");
    }
    assert(pub_gid@ == spec_id_or_empty(opt_view(*publication_id)));
    jobject2("id", jstr(product_gid), "input", jobject1("publicationId", jstr(pub_gid)))
}

/// A publication as the short publications queries return it.
#[derive(Debug, Clone)]
pub struct PublicationNode {
    pub id: Option<String>,
    pub catalog: Option<Catalog>,
    pub name: Option<String>,
}

#[derive(Debug, Clone)]
pub struct PublicationNodes {
    pub nodes: Option<Vec<PublicationNode>>,
}

/// The answer of the short publications queries.
#[derive(Debug, Clone)]
pub struct PublicationNodesResponse {
    pub publications: Option<PublicationNodes>,
}

/// The publication nodes of a response, if it has them.
pub open spec fn spec_publication_nodes(resp: PublicationNodesResponse) -> Option<Seq<PublicationNode>> {
    match resp.publications {
        Some(p) => match p.nodes {
            Some(n) => Some(n@),
            None => None,
        },
        None => None,
    }
}

/// The id of the first publication (the online store), or the empty text.
pub open spec fn spec_first_publication_id(resp: PublicationNodesResponse) -> Seq<char> {
    match spec_publication_nodes(resp) {
        Some(nodes) => if nodes.len() > 0 {
            match nodes[0].id {
                Some(id) => id@,
                None => Seq::empty(),
            }
        } else {
            Seq::empty()
        },
        None => Seq::empty(),
    }
}

/// The id of the shop's first publication, or "" when there is none.
pub fn first_publication_id(resp: &PublicationNodesResponse) -> (r: String)
    ensures
        r@ == spec_first_publication_id(*resp),
{
    match &resp.publications {
        Some(p) => match &p.nodes {
            Some(nodes) => {
                if nodes.len() > 0 {
                    match &nodes[0].id {
                        Some(id) => return id.clone(),
                        None => {},
                    }
                }
            },
            None => {},
        },
        None => {},
    }
    String::new()
}

/// The names under which the Storefront API channel is published.
pub open spec fn spec_is_storefront_api_identifier(s: Seq<char>) -> bool {
    s == "storefront_api"@ || s == "Storefront API"@
}

/// Whether a name is one of the Storefront API channel's names.
pub fn is_storefront_api_identifier(s: &str) -> (b: bool)
    ensures
        b == spec_is_storefront_api_identifier(s@),
{
    str_eq(s, "storefront_api") || str_eq(s, "Storefront API")
}

/// A publication is the Storefront API channel by its catalog title or,
/// failing that, by its name.
pub open spec fn spec_names_storefront(p: PublicationNode) -> bool {
    (match p.catalog {
        Some(c) => match c.title {
            Some(t) => spec_is_storefront_api_identifier(t@),
            None => false,
        },
        None => false,
    }) || (match p.name {
        Some(n) => spec_is_storefront_api_identifier(n@),
        None => false,
    })
}

/// The first publication that is the Storefront API channel.
pub open spec fn spec_first_storefront(nodes: Seq<PublicationNode>) -> Option<PublicationNode>
    decreases nodes.len(),
{
    if nodes.len() == 0 {
        None
    } else if spec_names_storefront(nodes[0]) {
        Some(nodes[0])
    } else {
        spec_first_storefront(nodes.skip(1))
    }
}

/// What the Storefront API publication search answers.
pub open spec fn spec_storefront_publication_outcome(r: Result<String, AppError>, resp: PublicationNodesResponse) -> bool {
    match spec_publication_nodes(resp) {
        None => r matches Err(e) && is_other_error(e, "No publications found"@),
        Some(nodes) => match spec_first_storefront(nodes) {
            Some(p) => match p.id {
                Some(id) => r matches Ok(s) && s@ == id@,
                None => r matches Err(e) && is_other_error(e, "Publication ID not found"@),
            },
            None => r matches Err(e) && is_other_error(e, "Storefront API publication not found"@),
        },
    }
}

fn names_storefront(p: &PublicationNode) -> (b: bool)
    ensures
        b == spec_names_storefront(*p),
{
    let by_title = match &p.catalog {
        Some(c) => match &c.title {
            Some(t) => is_storefront_api_identifier(t.as_str()),
            None => false,
        },
        None => false,
    };
    let by_name = match &p.name {
        Some(n) => is_storefront_api_identifier(n.as_str()),
        None => false,
    };
    by_title || by_name
}

/// The id of the Storefront API publication (see
/// `spec_storefront_publication_outcome`).
pub fn storefront_publication_id(resp: &PublicationNodesResponse) -> (r: Result<String, AppError>)
    ensures
        spec_storefront_publication_outcome(r, *resp),
{
    let nodes = match &resp.publications {
        Some(p) => match &p.nodes {
            Some(n) => n,
            None => return Err(other_error("No publications found")),
        },
        None => return Err(other_error("No publications found")),
    };
    let mut i: usize = 0;
    assert(nodes@.skip(0) == nodes@);
    while i < nodes.len()
        invariant
            i <= nodes.len(),
            spec_publication_nodes(*resp) == Some(nodes@),
            spec_first_storefront(nodes@) == spec_first_storefront(nodes@.skip(i as int)),
        decreases nodes.len() - i,
    {
        let ghost rest = nodes@.skip(i as int);
        assert(rest[0] == nodes@[i as int]);
        if names_storefront(&nodes[i]) {
            return match &nodes[i].id {
                Some(id) => Ok(id.clone()),
                None => Err(other_error("Publication ID not found")),
            };
        }
        assert(rest.skip(1) == nodes@.skip(i + 1));
        i = i + 1;
    }
    Err(other_error("Storefront API publication not found"))
}

} // verus!
verus! {

/// `publishablePublish` publishes the given product: the variables' `id` is
/// the product's GID, and `input.publicationId` is the given publication's
/// id (the empty text when none is given).
pub proof fn lemma_publish_targets_product_and_publication(
    product_gid: Seq<char>,
    publication_id: Option<Seq<char>>,
    r: JsonView,
)
    requires
        r == spec_publishable_publish_variables(product_gid, publication_id),
    ensures
        crate::json::spec_member_of(r, "id"@) == Some(JsonView::Str(product_gid)),
        crate::json::spec_member_of(r, "input"@) matches Some(input) && crate::json::spec_member_of(
            input,
            "publicationId"@,
        ) == Some(
            JsonView::Str(
                match publication_id {
                    Some(p) => p,
                    None => Seq::empty(),
                },
            ),
        ),
{
    reveal_strlit("id");
    reveal_strlit("input");
    reveal_strlit("publicationId");
    reveal_with_fuel(crate::json::spec_find_member, 3);
    assert("id"@ != "input"@) by {
        assert("id"@.len() != "input"@.len());
    }
}

} // verus!
