//! The profile card: one container element tagged at once as a Microformats2
//! h-card and a Schema.org Person, exposing name, description, url and image
//! through both mechanisms.

use vstd::prelude::*;

use crate::escape::{escape_html, escape_html_text};
use crate::model::{SiteIdentity, SiteIdentityView};

verus! {

/// The rendered profile card for an identity: an identity link (`rel="me"`,
/// `itemprop="url"`, class `u-url`) wrapping the avatar image, then the name
/// and the description, each carrying its Microformats2 class and its
/// Schema.org property.
pub open spec fn spec_profile_card(id: SiteIdentityView) -> Seq<char> {
    "<article class=\"h-card profile-card\" itemscope itemtype=\"https://schema.org/Person\"><a href=\""@
        + escape_html(id.url)
        + "\" class=\"u-url\" rel=\"me\" itemprop=\"url\"><img src=\""@
        + escape_html(id.avatar_path)
        + "\" alt=\""@
        + escape_html(id.name)
        + " avatar\" class=\"u-photo avatar\" itemprop=\"image\" width=\"128\" height=\"128\" /></a><h1 class=\"p-name\" itemprop=\"name\">"@
        + escape_html(id.name)
        + "</h1><p class=\"p-note\" itemprop=\"description\">"@
        + escape_html(id.description)
        + "</p></article>"@
}

/// Renders the profile card with full triple semantic markup.
#[allow(non_snake_case)]
pub fn ProfileCard(identity: &SiteIdentity) -> (r: String)
    ensures
        r@ == spec_profile_card(identity@),
{
    let e_url = escape_html_text(identity.url.as_str());
    let e_avatar = escape_html_text(identity.avatar_path.as_str());
    let e_name = escape_html_text(identity.name.as_str());
    let e_desc = escape_html_text(identity.description.as_str());
    let mut r = String::new();
    r.append(
        "<article class=\"h-card profile-card\" itemscope itemtype=\"https://schema.org/Person\"><a href=\"",
    );
    r.append(e_url.as_str());
    r.append("\" class=\"u-url\" rel=\"me\" itemprop=\"url\"><img src=\"");
    r.append(e_avatar.as_str());
    r.append("\" alt=\"");
    r.append(e_name.as_str());
    r.append(
        " avatar\" class=\"u-photo avatar\" itemprop=\"image\" width=\"128\" height=\"128\" /></a><h1 class=\"p-name\" itemprop=\"name\">",
    );
    r.append(e_name.as_str());
    r.append("</h1><p class=\"p-note\" itemprop=\"description\">");
    r.append(e_desc.as_str());
    r.append("</p></article>");
    proof {
        assert(r@ =~= spec_profile_card(identity@));
    }
    r
}

} // verus!
