//! The cross-encoding round trip: the defining correctness property of the
//! generator. For any well-formed identity, each of the three encodings —
//! the JSON-LD block, the Microformats2 classes and the Schema.org microdata
//! attributes — carries an escaped copy of the same name, description, url
//! and image value, each sitting contiguously between its own markers, and
//! unescaping recovers the original field exactly.

use vstd::prelude::*;

use crate::escape::{escape_html, escape_json, unescape_html, unescape_json,
    lemma_escape_html_round_trip, lemma_escape_json_round_trip};
use crate::head::{jld_after_image, jld_before_description, jld_before_image, jld_before_name,
    jld_before_url, spec_full_avatar, spec_json_ld};
use crate::model::{identity_wf, SiteIdentityView};
use crate::profile_card::spec_profile_card;
use crate::substring::{contains_at, contains_sub, has_prefix, has_suffix};

verus! {

/// The JSON-LD encoding carries each field value between its markers:
/// `"name": "` immediately precedes the escaped name, a quote immediately
/// follows it, and likewise for url, description and image — where the image
/// value is the escape of the fully-qualified avatar URL. Unescaping each
/// value gives the identity field back unchanged.
pub proof fn lemma_json_ld_round_trip(id: SiteIdentityView)
    ensures
        contains_sub(spec_json_ld(id), jld_before_name() + escape_json(id.name)
            + jld_before_url()),
        contains_sub(spec_json_ld(id), jld_before_description() + escape_json(id.description)
            + jld_before_image()),
        contains_sub(spec_json_ld(id), jld_before_image() + escape_json(spec_full_avatar(id))
            + jld_after_image()),
        contains_sub(spec_json_ld(id), jld_before_url() + escape_json(id.url)
            + jld_before_description()),
        has_suffix(jld_before_name(), "\"name\": \""@),
        has_suffix(jld_before_url(), "\"url\": \""@),
        has_suffix(jld_before_description(), "\"description\": \""@),
        has_suffix(jld_before_image(), "\"image\": \""@),
        has_prefix(jld_before_url(), "\","@),
        has_prefix(jld_before_description(), "\","@),
        has_prefix(jld_before_image(), "\","@),
        has_prefix(jld_after_image(), "\","@),
        unescape_json(escape_json(id.name)) == id.name,
        unescape_json(escape_json(id.url)) == id.url,
        unescape_json(escape_json(id.description)) == id.description,
        unescape_json(escape_json(spec_full_avatar(id))) == spec_full_avatar(id),
{
    let b1 = jld_before_name();
    let b2 = jld_before_url();
    let b3 = jld_before_description();
    let b4 = jld_before_image();
    let b5 = jld_after_image();
    let n = escape_json(id.name);
    let u = escape_json(id.url);
    let d = escape_json(id.description);
    let im = escape_json(spec_full_avatar(id));
    let whole = spec_json_ld(id);
    assert(contains_at(whole, 0, b1 + n + b2)) by {
        assert(whole.subrange(0, (b1 + n + b2).len() as int) =~= b1 + n + b2);
    }
    assert(contains_at(whole, b1.len() as int + n.len(), b2 + u + b3)) by {
        let i = b1.len() as int + n.len();
        assert(whole.subrange(i, i + (b2 + u + b3).len()) =~= b2 + u + b3);
    }
    assert(contains_at(whole, b1.len() as int + n.len() + b2.len() + u.len(), b3 + d + b4)) by {
        let i = b1.len() as int + n.len() + b2.len() + u.len();
        assert(whole.subrange(i, i + (b3 + d + b4).len()) =~= b3 + d + b4);
    }
    assert(contains_at(
        whole,
        b1.len() as int + n.len() + b2.len() + u.len() + b3.len() + d.len(),
        b4 + im + b5,
    )) by {
        let i = b1.len() as int + n.len() + b2.len() + u.len() + b3.len() + d.len();
        assert(whole.subrange(i, i + (b4 + im + b5).len()) =~= b4 + im + b5);
    }
    reveal_strlit(
        "{\n  \"@context\": \"https://schema.org\",\n  \"@type\": \"Person\",\n  \"name\": \"",
    );
    reveal_strlit("\",\n  \"url\": \"");
    reveal_strlit("\",\n  \"description\": \"");
    reveal_strlit("\",\n  \"image\": \"");
    reveal_strlit("\",\n  \"sameAs\": []\n}");
    reveal_strlit("\"name\": \"");
    reveal_strlit("\"url\": \"");
    reveal_strlit("\"description\": \"");
    reveal_strlit("\"image\": \"");
    reveal_strlit("\",");
    assert(has_suffix(b1, "\"name\": \""@)) by {
        let m = "\"name\": \""@;
        assert(b1.subrange(b1.len() - m.len(), b1.len() as int) =~= m);
    }
    assert(has_suffix(b2, "\"url\": \""@)) by {
        let m = "\"url\": \""@;
        assert(b2.subrange(b2.len() - m.len(), b2.len() as int) =~= m);
    }
    assert(has_suffix(b3, "\"description\": \""@)) by {
        let m = "\"description\": \""@;
        assert(b3.subrange(b3.len() - m.len(), b3.len() as int) =~= m);
    }
    assert(has_suffix(b4, "\"image\": \""@)) by {
        let m = "\"image\": \""@;
        assert(b4.subrange(b4.len() - m.len(), b4.len() as int) =~= m);
    }
    assert(has_prefix(b2, "\","@)) by {
        assert(b2.subrange(0, 2) =~= "\","@);
    }
    assert(has_prefix(b3, "\","@)) by {
        assert(b3.subrange(0, 2) =~= "\","@);
    }
    assert(has_prefix(b4, "\","@)) by {
        assert(b4.subrange(0, 2) =~= "\","@);
    }
    assert(has_prefix(b5, "\","@)) by {
        assert(b5.subrange(0, 2) =~= "\","@);
    }
    lemma_escape_json_round_trip(id.name);
    lemma_escape_json_round_trip(id.url);
    lemma_escape_json_round_trip(id.description);
    lemma_escape_json_round_trip(spec_full_avatar(id));
}

/// The profile card carries each field value inside the element that owns
/// both its Microformats2 class and its Schema.org property: the name between
/// the `p-name`/`name` heading markers, the description between the
/// `p-note`/`description` markers, the avatar path as the source of the
/// `u-photo`/`image` element, and the url as the target of the
/// `u-url`/`url` identity link. Unescaping recovers each field exactly.
#[verifier::rlimit(50)]
pub proof fn lemma_profile_card_round_trip(id: SiteIdentityView)
    ensures
        contains_sub(
            spec_profile_card(id),
            " avatar\" class=\"u-photo avatar\" itemprop=\"image\" width=\"128\" height=\"128\" /></a><h1 class=\"p-name\" itemprop=\"name\">"@
                + escape_html(id.name) + "</h1><p class=\"p-note\" itemprop=\"description\">"@,
        ),
        contains_sub(
            spec_profile_card(id),
            "</h1><p class=\"p-note\" itemprop=\"description\">"@ + escape_html(id.description)
                + "</p></article>"@,
        ),
        contains_sub(
            spec_profile_card(id),
            "\" class=\"u-url\" rel=\"me\" itemprop=\"url\"><img src=\""@ + escape_html(
                id.avatar_path,
            ) + "\" alt=\""@,
        ),
        contains_sub(
            spec_profile_card(id),
            "<article class=\"h-card profile-card\" itemscope itemtype=\"https://schema.org/Person\"><a href=\""@
                + escape_html(id.url)
                + "\" class=\"u-url\" rel=\"me\" itemprop=\"url\"><img src=\""@,
        ),
        has_suffix(
            " avatar\" class=\"u-photo avatar\" itemprop=\"image\" width=\"128\" height=\"128\" /></a><h1 class=\"p-name\" itemprop=\"name\">"@,
            "<h1 class=\"p-name\" itemprop=\"name\">"@,
        ),
        has_suffix(
            "</h1><p class=\"p-note\" itemprop=\"description\">"@,
            "<p class=\"p-note\" itemprop=\"description\">"@,
        ),
        has_suffix(
            "\" class=\"u-url\" rel=\"me\" itemprop=\"url\"><img src=\""@,
            "<img src=\""@,
        ),
        has_suffix(
            "<article class=\"h-card profile-card\" itemscope itemtype=\"https://schema.org/Person\"><a href=\""@,
            "<a href=\""@,
        ),
        unescape_html(escape_html(id.name)) == id.name,
        unescape_html(escape_html(id.description)) == id.description,
        unescape_html(escape_html(id.avatar_path)) == id.avatar_path,
        unescape_html(escape_html(id.url)) == id.url,
{
    let p1 =
        "<article class=\"h-card profile-card\" itemscope itemtype=\"https://schema.org/Person\"><a href=\""@;
    let p2 = "\" class=\"u-url\" rel=\"me\" itemprop=\"url\"><img src=\""@;
    let p3 = "\" alt=\""@;
    let p4 =
        " avatar\" class=\"u-photo avatar\" itemprop=\"image\" width=\"128\" height=\"128\" /></a><h1 class=\"p-name\" itemprop=\"name\">"@;
    let p5 = "</h1><p class=\"p-note\" itemprop=\"description\">"@;
    let p6 = "</p></article>"@;
    let e_url = escape_html(id.url);
    let e_av = escape_html(id.avatar_path);
    let e_nm = escape_html(id.name);
    let e_d = escape_html(id.description);
    let whole = spec_profile_card(id);
    assert(contains_at(whole, 0, p1 + e_url + p2)) by {
        assert(whole.subrange(0, (p1 + e_url + p2).len() as int) =~= p1 + e_url + p2);
    }
    assert(contains_at(whole, p1.len() as int + e_url.len(), p2 + e_av + p3)) by {
        let i = p1.len() as int + e_url.len();
        assert(whole.subrange(i, i + (p2 + e_av + p3).len()) =~= p2 + e_av + p3);
    }
    assert(contains_at(
        whole,
        p1.len() as int + e_url.len() + p2.len() + e_av.len() + p3.len() + e_nm.len(),
        p4 + e_nm + p5,
    )) by {
        let i = p1.len() as int + e_url.len() + p2.len() + e_av.len() + p3.len() + e_nm.len();
        assert(whole.subrange(i, i + (p4 + e_nm + p5).len()) =~= p4 + e_nm + p5);
    }
    assert(contains_at(
        whole,
        p1.len() as int + e_url.len() + p2.len() + e_av.len() + p3.len() + e_nm.len()
            + p4.len() + e_nm.len(),
        p5 + e_d + p6,
    )) by {
        let i = p1.len() as int + e_url.len() + p2.len() + e_av.len() + p3.len()
            + e_nm.len() + p4.len() + e_nm.len();
        assert(whole.subrange(i, i + (p5 + e_d + p6).len()) =~= p5 + e_d + p6);
    }
    reveal_strlit(
        "<article class=\"h-card profile-card\" itemscope itemtype=\"https://schema.org/Person\"><a href=\"",
    );
    reveal_strlit("\" class=\"u-url\" rel=\"me\" itemprop=\"url\"><img src=\"");
    reveal_strlit(
        " avatar\" class=\"u-photo avatar\" itemprop=\"image\" width=\"128\" height=\"128\" /></a><h1 class=\"p-name\" itemprop=\"name\">",
    );
    reveal_strlit("</h1><p class=\"p-note\" itemprop=\"description\">");
    reveal_strlit("<h1 class=\"p-name\" itemprop=\"name\">");
    reveal_strlit("<p class=\"p-note\" itemprop=\"description\">");
    reveal_strlit("<img src=\"");
    reveal_strlit("<a href=\"");
    assert(has_suffix(p4, "<h1 class=\"p-name\" itemprop=\"name\">"@)) by {
        let m = "<h1 class=\"p-name\" itemprop=\"name\">"@;
        assert(p4.subrange(p4.len() - m.len(), p4.len() as int) =~= m);
    }
    assert(has_suffix(p5, "<p class=\"p-note\" itemprop=\"description\">"@)) by {
        let m = "<p class=\"p-note\" itemprop=\"description\">"@;
        assert(p5.subrange(p5.len() - m.len(), p5.len() as int) =~= m);
    }
    assert(has_suffix(p2, "<img src=\""@)) by {
        let m = "<img src=\""@;
        assert(p2.subrange(p2.len() - m.len(), p2.len() as int) =~= m);
    }
    assert(has_suffix(p1, "<a href=\""@)) by {
        let m = "<a href=\""@;
        assert(p1.subrange(p1.len() - m.len(), p1.len() as int) =~= m);
    }
    lemma_escape_html_round_trip(id.name);
    lemma_escape_html_round_trip(id.description);
    lemma_escape_html_round_trip(id.avatar_path);
    lemma_escape_html_round_trip(id.url);
}

/// The full round trip: for a well-formed identity, all three encodings
/// independently carry the same name and description, and an image value that
/// resolves to the same fully-qualified avatar URL — the JSON-LD block
/// directly, the two in-body encodings as the root-relative path inside the
/// element linked to the canonical URL.
pub proof fn lemma_triple_encoding_round_trip(id: SiteIdentityView)
    requires
        identity_wf(id),
    ensures
        unescape_json(escape_json(id.name)) == id.name,
        unescape_html(escape_html(id.name)) == id.name,
        unescape_json(escape_json(id.description)) == id.description,
        unescape_html(escape_html(id.description)) == id.description,
        unescape_json(escape_json(spec_full_avatar(id))) == id.url + id.avatar_path,
        unescape_html(escape_html(id.url)) + unescape_html(escape_html(id.avatar_path)) == id.url
            + id.avatar_path,
        contains_sub(spec_json_ld(id), jld_before_name() + escape_json(id.name)
            + jld_before_url()),
        contains_sub(
            spec_profile_card(id),
            " avatar\" class=\"u-photo avatar\" itemprop=\"image\" width=\"128\" height=\"128\" /></a><h1 class=\"p-name\" itemprop=\"name\">"@
                + escape_html(id.name) + "</h1><p class=\"p-note\" itemprop=\"description\">"@,
        ),
        contains_sub(spec_json_ld(id), jld_before_image() + escape_json(spec_full_avatar(id))
            + jld_after_image()),
        contains_sub(
            spec_profile_card(id),
            "\" class=\"u-url\" rel=\"me\" itemprop=\"url\"><img src=\""@ + escape_html(
                id.avatar_path,
            ) + "\" alt=\""@,
        ),
{
    lemma_json_ld_round_trip(id);
    lemma_profile_card_round_trip(id);
}

} // verus!
