//! The root page composition and the document assembler.
//!
//! The body carries Schema.org WebPage scope and holds, in order, the profile
//! card and the link catalog, plus an empty closing footer element. The
//! assembler concatenates a head fragment and a body fragment into one
//! complete HTML document string.

use vstd::prelude::*;

use crate::link_list::{spec_link_list, LinkList};
use crate::model::{LinkCatalog, LinkCatalogView, SiteIdentity, SiteIdentityView};
use crate::profile_card::{spec_profile_card, ProfileCard};

verus! {

/// The opening of the body: WebPage microdata scope, the background canvas,
/// the no-script fallback style, and the opening of the main container.
pub open spec fn spec_body_open() -> Seq<char> {
    "<body itemscope itemtype=\"https://schema.org/WebPage\"><canvas id=\"shader-canvas\" aria-hidden=\"true\"></canvas><noscript><style>body { background: linear-gradient(135deg, #0d0d0d 0%, #1a1a1a 50%, #0d0d0d 100%); }</style></noscript><main class=\"container\">"@
}

/// The rendered body: profile card then link catalog inside the main
/// container, then an empty footer.
pub open spec fn spec_body_html(id: SiteIdentityView, c: LinkCatalogView) -> Seq<char> {
    spec_body_open() + spec_profile_card(id) + spec_link_list(c)
        + "</main><footer></footer></body>"@
}

/// Renders the body content: WebPage scope, profile card, link catalog,
/// empty footer.
#[allow(non_snake_case)]
pub fn Body(identity: &SiteIdentity, catalog: &LinkCatalog) -> (r: String)
    ensures
        r@ == spec_body_html(identity@, catalog@),
{
    let card = ProfileCard(identity);
    let links = LinkList(catalog);
    let mut r = String::new();
    r.append(
        "<body itemscope itemtype=\"https://schema.org/WebPage\"><canvas id=\"shader-canvas\" aria-hidden=\"true\"></canvas><noscript><style>body { background: linear-gradient(135deg, #0d0d0d 0%, #1a1a1a 50%, #0d0d0d 100%); }</style></noscript><main class=\"container\">",
    );
    r.append(card.as_str());
    r.append(links.as_str());
    r.append("</main><footer></footer></body>");
    proof {
        assert(r@ =~= spec_body_html(identity@, catalog@));
    }
    r
}

/// The root application component: renders the body content. The head is
/// produced separately by `generate_head_html`.
#[allow(non_snake_case)]
pub fn App(identity: &SiteIdentity, catalog: &LinkCatalog) -> (r: String)
    ensures
        r@ == spec_body_html(identity@, catalog@),
{
    Body(identity, catalog)
}

/// The assembled document: doctype, root element with language attribute,
/// head fragment, body fragment, closing root tag — in that fixed order.
pub open spec fn spec_document(head: Seq<char>, body: Seq<char>) -> Seq<char> {
    "<!DOCTYPE html>\n<html lang=\"en\">\n"@ + head + "\n"@ + body + "\n</html>"@
}

/// Concatenates a head fragment and a body fragment into one complete HTML
/// document string.
pub fn assemble_document(head: &str, body: &str) -> (r: String)
    ensures
        r@ == spec_document(head@, body@),
{
    let mut r = String::new();
    r.append("<!DOCTYPE html>\n<html lang=\"en\">\n");
    r.append(head);
    r.append("\n");
    r.append(body);
    r.append("\n</html>");
    proof {
        assert(r@ =~= spec_document(head@, body@));
    }
    r
}

/// Assembly is deterministic: the document is a function of the two fragments
/// alone, so identical fragments always yield byte-identical documents.
pub proof fn lemma_assemble_deterministic(
    h1: Seq<char>,
    b1: Seq<char>,
    h2: Seq<char>,
    b2: Seq<char>,
)
    requires
        h1 == h2,
        b1 == b2,
    ensures
        spec_document(h1, b1) == spec_document(h2, b2),
{
}

/// Generates the complete HTML document for an identity and a catalog:
/// the generated head and the rendered body, assembled in fixed order.
pub fn render_to_html(identity: &SiteIdentity, catalog: &LinkCatalog) -> (r: String)
    ensures
        r@ == spec_document(
            crate::head::spec_head_html(identity@),
            spec_body_html(identity@, catalog@),
        ),
{
    let head_html = crate::head::generate_head_html(identity);
    let body_html = App(identity, catalog);
    assemble_document(head_html.as_str(), body_html.as_str())
}

} // verus!
