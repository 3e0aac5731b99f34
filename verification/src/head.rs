//! The head/metadata generator: charset, viewport, title, canonical link,
//! icons, manifest, theme color, Open Graph and Twitter Card blocks, RSS
//! alternate, one JSON-LD Person block, and the stylesheet link — all
//! deterministic from the identity and fixed constants.

use vstd::prelude::*;

use crate::escape::{escape_html, escape_html_text, escape_json, escape_json_text};
use crate::model::{SiteIdentity, SiteIdentityView};

verus! {

/// The fully-qualified avatar URL: the canonical site URL followed by the
/// root-relative avatar path.
pub open spec fn spec_full_avatar(id: SiteIdentityView) -> Seq<char> {
    id.url + id.avatar_path
}

/// The JSON-LD text up to and including the opening quote of the name value.
pub open spec fn jld_before_name() -> Seq<char> {
    "{\n  \"@context\": \"https://schema.org\",\n  \"@type\": \"Person\",\n  \"name\": \""@
}

/// From the closing quote of the name value to the opening quote of the url value.
pub open spec fn jld_before_url() -> Seq<char> {
    "\",\n  \"url\": \""@
}

/// From the closing quote of the url value to the opening quote of the description value.
pub open spec fn jld_before_description() -> Seq<char> {
    "\",\n  \"description\": \""@
}

/// From the closing quote of the description value to the opening quote of the image value.
pub open spec fn jld_before_image() -> Seq<char> {
    "\",\n  \"image\": \""@
}

/// From the closing quote of the image value to the end of the object.
pub open spec fn jld_after_image() -> Seq<char> {
    "\",\n  \"sameAs\": []\n}"@
}

/// The JSON-LD Person object for an identity: every value JSON-escaped, the
/// image value the fully-qualified avatar URL, `sameAs` an empty sequence.
pub open spec fn spec_json_ld(id: SiteIdentityView) -> Seq<char> {
    jld_before_name() + escape_json(id.name) + jld_before_url() + escape_json(id.url)
        + jld_before_description() + escape_json(id.description) + jld_before_image()
        + escape_json(spec_full_avatar(id)) + jld_after_image()
}

/// The opening tag of the JSON-LD script block.
pub open spec fn spec_ld_script_open() -> Seq<char> {
    "<script type=\"application/ld+json\">"@
}

/// An element is a JSON-LD block exactly when it begins with the JSON-LD
/// script opening tag.
pub open spec fn is_json_ld_element(e: Seq<char>) -> bool {
    crate::substring::has_prefix(e, spec_ld_script_open())
}

/// The head's elements, in order, one per line of the rendered fragment.
pub open spec fn head_elements(id: SiteIdentityView) -> Seq<Seq<char>> {
    seq![
        "<meta charset=\"utf-8\" />"@,
        "<meta name=\"viewport\" content=\"width=device-width, initial-scale=1\" />"@,
        "<title>"@ + escape_html(id.name) + " | Digital Artist</title>"@,
        "<meta name=\"description\" content=\""@ + escape_html(id.description) + "\" />"@,
        "<link rel=\"canonical\" href=\""@ + escape_html(id.url) + "\" />"@,
        "<link rel=\"icon\" href=\"/favicon.ico\" sizes=\"32x32\" />"@,
        "<link rel=\"icon\" href=\"/favicon.svg\" type=\"image/svg+xml\" />"@,
        "<link rel=\"apple-touch-icon\" href=\"/apple-touch-icon.png\" />"@,
        "<link rel=\"manifest\" href=\"/site.webmanifest\" />"@,
        "<meta name=\"theme-color\" content=\""@ + crate::config::THEME_COLOR@ + "\" />"@,
        "<meta property=\"og:type\" content=\"profile\" />"@,
        "<meta property=\"og:title\" content=\""@ + escape_html(id.name) + "\" />"@,
        "<meta property=\"og:description\" content=\""@ + escape_html(id.description) + "\" />"@,
        "<meta property=\"og:url\" content=\""@ + escape_html(id.url) + "\" />"@,
        "<meta property=\"og:image\" content=\""@ + escape_html(spec_full_avatar(id)) + "\" />"@,
        "<meta name=\"twitter:card\" content=\"summary\" />"@,
        "<meta name=\"twitter:title\" content=\""@ + escape_html(id.name) + "\" />"@,
        "<meta name=\"twitter:description\" content=\""@ + escape_html(id.description)
            + "\" />"@,
        "<meta name=\"twitter:image\" content=\""@ + escape_html(spec_full_avatar(id)) + "\" />"@,
        "<link rel=\"alternate\" type=\"application/rss+xml\" title=\""@ + escape_html(id.name)
            + " RSS Feed\" href=\"/feed.xml\" />"@,
        spec_ld_script_open() + spec_json_ld(id) + "</script>"@,
        "<link rel=\"stylesheet\" href=\"/main.css\" />"@,
        "<script src=\"/js/shader-bg.js\" defer></script>"@,
    ]
}

/// Each part on its own line: a newline before every part.
pub open spec fn join_lines(parts: Seq<Seq<char>>) -> Seq<char>
    decreases parts.len(),
{
    if parts.len() == 0 {
        Seq::empty()
    } else {
        seq!['\n'] + parts[0] + join_lines(parts.drop_first())
    }
}

/// The whole rendered head fragment.
pub open spec fn spec_head_html(id: SiteIdentityView) -> Seq<char> {
    "<head>"@ + join_lines(head_elements(id)) + "\n</head>"@
}

/// Generates the JSON-LD structured data for the page: a Schema.org Person
/// object as a JSON string.
pub fn generate_json_ld(identity: &SiteIdentity) -> (r: String)
    ensures
        r@ == spec_json_ld(identity@),
{
    let e_name = escape_json_text(identity.name.as_str());
    let e_url = escape_json_text(identity.url.as_str());
    let e_desc = escape_json_text(identity.description.as_str());
    let mut full_avatar = String::new();
    full_avatar.append(identity.url.as_str());
    full_avatar.append(identity.avatar_path.as_str());
    let e_image = escape_json_text(full_avatar.as_str());
    proof {
        assert(full_avatar@ =~= spec_full_avatar(identity@));
    }
    let mut r = String::new();
    r.append("{\n  \"@context\": \"https://schema.org\",\n  \"@type\": \"Person\",\n  \"name\": \"");
    r.append(e_name.as_str());
    r.append("\",\n  \"url\": \"");
    r.append(e_url.as_str());
    r.append("\",\n  \"description\": \"");
    r.append(e_desc.as_str());
    r.append("\",\n  \"image\": \"");
    r.append(e_image.as_str());
    r.append("\",\n  \"sameAs\": []\n}");
    proof {
        assert(r@ =~= spec_json_ld(identity@));
    }
    r
}

/// Joining distributes over appending one part.
proof fn lemma_join_lines_snoc(t: Seq<Seq<char>>, x: Seq<char>)
    ensures
        join_lines(t.push(x)) == join_lines(t) + (seq!['\n'] + x),
    decreases t.len(),
{
    if t.len() == 0 {
        assert(t.push(x).drop_first() =~= Seq::<Seq<char>>::empty());
        assert(t.push(x)[0] == x);
        assert(join_lines(t.push(x)) == seq!['\n'] + x + join_lines(t.push(x).drop_first()));
        assert(join_lines(t.push(x)) =~= join_lines(t) + (seq!['\n'] + x));
    } else {
        lemma_join_lines_snoc(t.drop_first(), x);
        assert(t.push(x).drop_first() =~= t.drop_first().push(x));
        assert(t.push(x)[0] == t[0]);
        assert(join_lines(t.push(x)) == seq!['\n'] + t[0] + (join_lines(t.drop_first()) + (
        seq!['\n'] + x)));
        assert(seq!['\n'] + t[0] + (join_lines(t.drop_first()) + (seq!['\n'] + x)) =~= (seq!['\n']
            + t[0] + join_lines(t.drop_first())) + (seq!['\n'] + x));
    }
}

/// Builds the head elements, in order, as strings.
#[verifier::rlimit(50)]
fn build_head_elements(identity: &SiteIdentity) -> (v: Vec<String>)
    ensures
        v@.map_values(|s: String| s@) == head_elements(identity@),
{
    let e_name = escape_html_text(identity.name.as_str());
    let e_desc = escape_html_text(identity.description.as_str());
    let e_url = escape_html_text(identity.url.as_str());
    let mut full_avatar = String::new();
    full_avatar.append(identity.url.as_str());
    full_avatar.append(identity.avatar_path.as_str());
    let e_image = escape_html_text(full_avatar.as_str());
    proof {
        assert(full_avatar@ =~= spec_full_avatar(identity@));
    }
    let json_ld = generate_json_ld(identity);
    let mut v: Vec<String> = Vec::new();
    v.push("<meta charset=\"utf-8\" />".to_owned());
    v.push("<meta name=\"viewport\" content=\"width=device-width, initial-scale=1\" />".to_owned());
    let mut e = String::new();
    e.append("<title>");
    e.append(e_name.as_str());
    e.append(" | Digital Artist</title>");
    proof {
        assert(e@ =~= "<title>"@ + escape_html(identity@.name) + " | Digital Artist</title>"@);
    }
    v.push(e);
    let mut e = String::new();
    e.append("<meta name=\"description\" content=\"");
    e.append(e_desc.as_str());
    e.append("\" />");
    proof {
        assert(e@ =~= "<meta name=\"description\" content=\""@ + escape_html(identity@.description) + "\" />"@);
    }
    v.push(e);
    let mut e = String::new();
    e.append("<link rel=\"canonical\" href=\"");
    e.append(e_url.as_str());
    e.append("\" />");
    proof {
        assert(e@ =~= "<link rel=\"canonical\" href=\""@ + escape_html(identity@.url) + "\" />"@);
    }
    v.push(e);
    v.push("<link rel=\"icon\" href=\"/favicon.ico\" sizes=\"32x32\" />".to_owned());
    v.push("<link rel=\"icon\" href=\"/favicon.svg\" type=\"image/svg+xml\" />".to_owned());
    v.push("<link rel=\"apple-touch-icon\" href=\"/apple-touch-icon.png\" />".to_owned());
    v.push("<link rel=\"manifest\" href=\"/site.webmanifest\" />".to_owned());
    let mut e = String::new();
    e.append("<meta name=\"theme-color\" content=\"");
    e.append(crate::config::THEME_COLOR);
    e.append("\" />");
    proof {
        assert(e@ =~= "<meta name=\"theme-color\" content=\""@ + crate::config::THEME_COLOR@
            + "\" />"@);
    }
    v.push(e);
    v.push("<meta property=\"og:type\" content=\"profile\" />".to_owned());
    let mut e = String::new();
    e.append("<meta property=\"og:title\" content=\"");
    e.append(e_name.as_str());
    e.append("\" />");
    proof {
        assert(e@ =~= "<meta property=\"og:title\" content=\""@ + escape_html(identity@.name) + "\" />"@);
    }
    v.push(e);
    let mut e = String::new();
    e.append("<meta property=\"og:description\" content=\"");
    e.append(e_desc.as_str());
    e.append("\" />");
    proof {
        assert(e@ =~= "<meta property=\"og:description\" content=\""@ + escape_html(identity@.description) + "\" />"@);
    }
    v.push(e);
    let mut e = String::new();
    e.append("<meta property=\"og:url\" content=\"");
    e.append(e_url.as_str());
    e.append("\" />");
    proof {
        assert(e@ =~= "<meta property=\"og:url\" content=\""@ + escape_html(identity@.url) + "\" />"@);
    }
    v.push(e);
    let mut e = String::new();
    e.append("<meta property=\"og:image\" content=\"");
    e.append(e_image.as_str());
    e.append("\" />");
    proof {
        assert(e@ =~= "<meta property=\"og:image\" content=\""@ + escape_html(spec_full_avatar(identity@)) + "\" />"@);
    }
    v.push(e);
    v.push("<meta name=\"twitter:card\" content=\"summary\" />".to_owned());
    let mut e = String::new();
    e.append("<meta name=\"twitter:title\" content=\"");
    e.append(e_name.as_str());
    e.append("\" />");
    proof {
        assert(e@ =~= "<meta name=\"twitter:title\" content=\""@ + escape_html(identity@.name) + "\" />"@);
    }
    v.push(e);
    let mut e = String::new();
    e.append("<meta name=\"twitter:description\" content=\"");
    e.append(e_desc.as_str());
    e.append("\" />");
    proof {
        assert(e@ =~= "<meta name=\"twitter:description\" content=\""@ + escape_html(identity@.description) + "\" />"@);
    }
    v.push(e);
    let mut e = String::new();
    e.append("<meta name=\"twitter:image\" content=\"");
    e.append(e_image.as_str());
    e.append("\" />");
    proof {
        assert(e@ =~= "<meta name=\"twitter:image\" content=\""@ + escape_html(spec_full_avatar(identity@)) + "\" />"@);
    }
    v.push(e);
    let mut e = String::new();
    e.append("<link rel=\"alternate\" type=\"application/rss+xml\" title=\"");
    e.append(e_name.as_str());
    e.append(" RSS Feed\" href=\"/feed.xml\" />");
    proof {
        assert(e@ =~= "<link rel=\"alternate\" type=\"application/rss+xml\" title=\""@ + escape_html(identity@.name) + " RSS Feed\" href=\"/feed.xml\" />"@);
    }
    v.push(e);
    let mut e = String::new();
    e.append("<script type=\"application/ld+json\">");
    e.append(json_ld.as_str());
    e.append("</script>");
    proof {
        assert(e@ =~= spec_ld_script_open() + spec_json_ld(identity@) + "</script>"@);
    }
    v.push(e);
    v.push("<link rel=\"stylesheet\" href=\"/main.css\" />".to_owned());
    v.push("<script src=\"/js/shader-bg.js\" defer></script>".to_owned());
    proof {
        assert(v@.map_values(|s: String| s@) =~= head_elements(identity@));
    }
    v
}

/// Generates the complete head fragment as an HTML string, one element per
/// line between the `<head>` and `</head>` tags.
pub fn generate_head_html(identity: &SiteIdentity) -> (r: String)
    ensures
        r@ == spec_head_html(identity@),
{
    let elems = build_head_elements(identity);
    let n = elems.len();
    let mut r = String::new();
    r.append("<head>");
    proof {
        assert(r@ =~= "<head>"@ + join_lines(head_elements(identity@).take(0)));
    }
    let mut k: usize = 0;
    while k < n
        invariant
            n == elems.len(),
            elems@.map_values(|s: String| s@) == head_elements(identity@),
            k <= n,
            r@ == "<head>"@ + join_lines(head_elements(identity@).take(k as int)),
        decreases n - k,
    {
        r.append("\n");
        r.append(elems[k].as_str());
        proof {
            reveal_strlit("\n");
            assert("\n"@ =~= seq!['\n']);
            let evs = head_elements(identity@);
            lemma_join_lines_snoc(evs.take(k as int), evs[k as int]);
            assert(evs.take(k as int).push(evs[k as int]) =~= evs.take(k + 1 as int));
            assert(elems@[k as int]@ == evs[k as int]);
            assert(r@ =~= "<head>"@ + join_lines(evs.take(k + 1 as int)));
        }
        k += 1;
    }
    proof {
        assert(head_elements(identity@).take(n as int) =~= head_elements(identity@));
    }
    r.append("\n</head>");
    proof {
        assert(r@ =~= spec_head_html(identity@));
    }
    r
}


/// Each part of a joined sequence occurs somewhere in the join.
proof fn lemma_join_lines_contains(parts: Seq<Seq<char>>, k: int)
    requires
        0 <= k < parts.len(),
    ensures
        crate::substring::contains_sub(join_lines(parts), parts[k]),
    decreases k,
{
    if k == 0 {
        crate::substring::lemma_contains_at_self(parts[0]);
        crate::substring::lemma_contains_at_right(seq!['\n'], parts[0], 0, parts[0]);
        crate::substring::lemma_contains_at_left(
            seq!['\n'] + parts[0],
            join_lines(parts.drop_first()),
            1,
            parts[0],
        );
    } else {
        lemma_join_lines_contains(parts.drop_first(), k - 1);
        assert(parts.drop_first()[k - 1] == parts[k]);
        crate::substring::lemma_contains_sub_right(
            seq!['\n'] + parts[0],
            join_lines(parts.drop_first()),
            parts[k],
        );
    }
}

/// The head fragment carries exactly one JSON-LD block. Among the head's
/// elements exactly the one at position 20 begins with the JSON-LD script
/// opening tag; it wraps the Person object, whose name, url and description
/// values recover the identity fields, and whose image value is the escape
/// of the fully-qualified avatar URL. All those values are non-empty.
#[verifier::rlimit(50)]
pub proof fn lemma_head_single_json_ld(id: SiteIdentityView)
    requires
        crate::model::identity_wf(id),
    ensures
        head_elements(id).len() == 23,
        is_json_ld_element(head_elements(id)[20]),
        head_elements(id)[20] == spec_ld_script_open() + spec_json_ld(id) + "</script>"@,
        forall|k: int|
            0 <= k < head_elements(id).len() && is_json_ld_element(
                #[trigger] head_elements(id)[k],
            ) ==> k == 20,
        crate::substring::contains_sub(
            spec_head_html(id),
            spec_ld_script_open() + spec_json_ld(id) + "</script>"@,
        ),
        crate::substring::contains_sub(spec_json_ld(id), "\"@type\": \"Person\""@),
        escape_json(id.name).len() > 0,
        escape_json(id.url).len() > 0,
        escape_json(id.description).len() > 0,
        escape_json(spec_full_avatar(id)).len() > 0,
        crate::escape::unescape_json(escape_json(id.name)) == id.name,
        crate::escape::unescape_json(escape_json(id.url)) == id.url,
        crate::escape::unescape_json(escape_json(id.description)) == id.description,
        crate::escape::unescape_json(escape_json(spec_full_avatar(id))) == spec_full_avatar(
            id,
        ),
{
    let tag = spec_ld_script_open();
    let block = spec_ld_script_open() + spec_json_ld(id) + "</script>"@;
    reveal_strlit("<script type=\"application/ld+json\">");
    assert(is_json_ld_element(head_elements(id)[20])) by {
        assert(block.subrange(0, tag.len() as int) =~= tag);
    }
    assert(!is_json_ld_element(head_elements(id)[0])) by {
        reveal_strlit("<meta charset=\"utf-8\" />");
        if is_json_ld_element(head_elements(id)[0]) {
            crate::substring::lemma_prefix_index(head_elements(id)[0], tag, 1);
        }
    }
    assert(!is_json_ld_element(head_elements(id)[1])) by {
        reveal_strlit("<meta name=\"viewport\" content=\"width=device-width, initial-scale=1\" />");
        if is_json_ld_element(head_elements(id)[1]) {
            crate::substring::lemma_prefix_index(head_elements(id)[1], tag, 1);
        }
    }
    assert(!is_json_ld_element(head_elements(id)[2])) by {
        reveal_strlit("<title>");
        if is_json_ld_element(head_elements(id)[2]) {
            crate::substring::lemma_prefix_index(head_elements(id)[2], tag, 1);
        }
    }
    assert(!is_json_ld_element(head_elements(id)[3])) by {
        reveal_strlit("<meta name=\"description\" content=\"");
        if is_json_ld_element(head_elements(id)[3]) {
            crate::substring::lemma_prefix_index(head_elements(id)[3], tag, 1);
        }
    }
    assert(!is_json_ld_element(head_elements(id)[4])) by {
        reveal_strlit("<link rel=\"canonical\" href=\"");
        if is_json_ld_element(head_elements(id)[4]) {
            crate::substring::lemma_prefix_index(head_elements(id)[4], tag, 1);
        }
    }
    assert(!is_json_ld_element(head_elements(id)[5])) by {
        reveal_strlit("<link rel=\"icon\" href=\"/favicon.ico\" sizes=\"32x32\" />");
        if is_json_ld_element(head_elements(id)[5]) {
            crate::substring::lemma_prefix_index(head_elements(id)[5], tag, 1);
        }
    }
    assert(!is_json_ld_element(head_elements(id)[6])) by {
        reveal_strlit("<link rel=\"icon\" href=\"/favicon.svg\" type=\"image/svg+xml\" />");
        if is_json_ld_element(head_elements(id)[6]) {
            crate::substring::lemma_prefix_index(head_elements(id)[6], tag, 1);
        }
    }
    assert(!is_json_ld_element(head_elements(id)[7])) by {
        reveal_strlit("<link rel=\"apple-touch-icon\" href=\"/apple-touch-icon.png\" />");
        if is_json_ld_element(head_elements(id)[7]) {
            crate::substring::lemma_prefix_index(head_elements(id)[7], tag, 1);
        }
    }
    assert(!is_json_ld_element(head_elements(id)[8])) by {
        reveal_strlit("<link rel=\"manifest\" href=\"/site.webmanifest\" />");
        if is_json_ld_element(head_elements(id)[8]) {
            crate::substring::lemma_prefix_index(head_elements(id)[8], tag, 1);
        }
    }
    assert(!is_json_ld_element(head_elements(id)[9])) by {
        reveal_strlit("<meta name=\"theme-color\" content=\"");
        if is_json_ld_element(head_elements(id)[9]) {
            crate::substring::lemma_prefix_index(head_elements(id)[9], tag, 1);
        }
    }
    assert(!is_json_ld_element(head_elements(id)[10])) by {
        reveal_strlit("<meta property=\"og:type\" content=\"profile\" />");
        if is_json_ld_element(head_elements(id)[10]) {
            crate::substring::lemma_prefix_index(head_elements(id)[10], tag, 1);
        }
    }
    assert(!is_json_ld_element(head_elements(id)[11])) by {
        reveal_strlit("<meta property=\"og:title\" content=\"");
        if is_json_ld_element(head_elements(id)[11]) {
            crate::substring::lemma_prefix_index(head_elements(id)[11], tag, 1);
        }
    }
    assert(!is_json_ld_element(head_elements(id)[12])) by {
        reveal_strlit("<meta property=\"og:description\" content=\"");
        if is_json_ld_element(head_elements(id)[12]) {
            crate::substring::lemma_prefix_index(head_elements(id)[12], tag, 1);
        }
    }
    assert(!is_json_ld_element(head_elements(id)[13])) by {
        reveal_strlit("<meta property=\"og:url\" content=\"");
        if is_json_ld_element(head_elements(id)[13]) {
            crate::substring::lemma_prefix_index(head_elements(id)[13], tag, 1);
        }
    }
    assert(!is_json_ld_element(head_elements(id)[14])) by {
        reveal_strlit("<meta property=\"og:image\" content=\"");
        if is_json_ld_element(head_elements(id)[14]) {
            crate::substring::lemma_prefix_index(head_elements(id)[14], tag, 1);
        }
    }
    assert(!is_json_ld_element(head_elements(id)[15])) by {
        reveal_strlit("<meta name=\"twitter:card\" content=\"summary\" />");
        if is_json_ld_element(head_elements(id)[15]) {
            crate::substring::lemma_prefix_index(head_elements(id)[15], tag, 1);
        }
    }
    assert(!is_json_ld_element(head_elements(id)[16])) by {
        reveal_strlit("<meta name=\"twitter:title\" content=\"");
        if is_json_ld_element(head_elements(id)[16]) {
            crate::substring::lemma_prefix_index(head_elements(id)[16], tag, 1);
        }
    }
    assert(!is_json_ld_element(head_elements(id)[17])) by {
        reveal_strlit("<meta name=\"twitter:description\" content=\"");
        if is_json_ld_element(head_elements(id)[17]) {
            crate::substring::lemma_prefix_index(head_elements(id)[17], tag, 1);
        }
    }
    assert(!is_json_ld_element(head_elements(id)[18])) by {
        reveal_strlit("<meta name=\"twitter:image\" content=\"");
        if is_json_ld_element(head_elements(id)[18]) {
            crate::substring::lemma_prefix_index(head_elements(id)[18], tag, 1);
        }
    }
    assert(!is_json_ld_element(head_elements(id)[19])) by {
        reveal_strlit("<link rel=\"alternate\" type=\"application/rss+xml\" title=\"");
        if is_json_ld_element(head_elements(id)[19]) {
            crate::substring::lemma_prefix_index(head_elements(id)[19], tag, 1);
        }
    }
    assert(!is_json_ld_element(head_elements(id)[21])) by {
        reveal_strlit("<link rel=\"stylesheet\" href=\"/main.css\" />");
        if is_json_ld_element(head_elements(id)[21]) {
            crate::substring::lemma_prefix_index(head_elements(id)[21], tag, 1);
        }
    }
    assert(!is_json_ld_element(head_elements(id)[22])) by {
        reveal_strlit("<script src=\"/js/shader-bg.js\" defer></script>");
        if is_json_ld_element(head_elements(id)[22]) {
            crate::substring::lemma_prefix_index(head_elements(id)[22], tag, 8);
        }
    }
    assert forall|k: int|
        0 <= k < head_elements(id).len() && is_json_ld_element(
            #[trigger] head_elements(id)[k],
        ) implies k == 20 by {
        assert(0 <= k < 23);
    }
    lemma_join_lines_contains(head_elements(id), 20);
    crate::substring::lemma_contains_sub_right("<head>"@, join_lines(head_elements(id)), block);
    crate::substring::lemma_contains_sub_left(
        "<head>"@ + join_lines(head_elements(id)),
        "\n</head>"@,
        block,
    );
    let t = "\"@type\": \"Person\""@;
    assert(crate::substring::contains_at(jld_before_name(), 40, t)) by {
        reveal_strlit("{\n  \"@context\": \"https://schema.org\",\n  \"@type\": \"Person\",\n  \"name\": \"");
        reveal_strlit("\"@type\": \"Person\"");
        assert(jld_before_name().subrange(40, 57) =~= t);
    }
    let a1 = jld_before_name();
    let a2 = a1 + escape_json(id.name);
    let a3 = a2 + jld_before_url();
    let a4 = a3 + escape_json(id.url);
    let a5 = a4 + jld_before_description();
    let a6 = a5 + escape_json(id.description);
    let a7 = a6 + jld_before_image();
    let a8 = a7 + escape_json(spec_full_avatar(id));
    crate::substring::lemma_contains_at_left(a1, escape_json(id.name), 40, t);
    crate::substring::lemma_contains_at_left(a2, jld_before_url(), 40, t);
    crate::substring::lemma_contains_at_left(a3, escape_json(id.url), 40, t);
    crate::substring::lemma_contains_at_left(a4, jld_before_description(), 40, t);
    crate::substring::lemma_contains_at_left(a5, escape_json(id.description), 40, t);
    crate::substring::lemma_contains_at_left(a6, jld_before_image(), 40, t);
    crate::substring::lemma_contains_at_left(a7, escape_json(spec_full_avatar(id)), 40, t);
    crate::substring::lemma_contains_at_left(a8, jld_after_image(), 40, t);
    assert(spec_json_ld(id) == a8 + jld_after_image());
    crate::escape::lemma_escape_json_nonempty(id.name);
    assert(id.url.len() > 0) by {
        assert(crate::model::https_prefix().len() == 8);
    }
    crate::escape::lemma_escape_json_nonempty(id.url);
    crate::escape::lemma_escape_json_nonempty(id.description);
    assert(spec_full_avatar(id).len() > 0);
    crate::escape::lemma_escape_json_nonempty(spec_full_avatar(id));
    crate::escape::lemma_escape_json_round_trip(id.name);
    crate::escape::lemma_escape_json_round_trip(id.url);
    crate::escape::lemma_escape_json_round_trip(id.description);
    crate::escape::lemma_escape_json_round_trip(spec_full_avatar(id));
}

/// The JSON-LD block's content holds no `<` at all — not in its fixed text
/// and not in any escaped value — so nothing inside the block can open a tag
/// or terminate the enclosing script element early, whatever the identity's
/// field values are.
#[verifier::rlimit(50)]
pub proof fn lemma_json_ld_no_markup(id: SiteIdentityView)
    ensures
        forall|i: int|
            0 <= i < spec_json_ld(id).len() ==> (#[trigger] spec_json_ld(id)[i]) != '<',
{
    reveal_strlit(
        "{\n  \"@context\": \"https://schema.org\",\n  \"@type\": \"Person\",\n  \"name\": \"",
    );
    reveal_strlit("\",\n  \"url\": \"");
    reveal_strlit("\",\n  \"description\": \"");
    reveal_strlit("\",\n  \"image\": \"");
    reveal_strlit("\",\n  \"sameAs\": []\n}");
    crate::escape::lemma_escape_json_script_safe(id.name);
    crate::escape::lemma_escape_json_script_safe(id.url);
    crate::escape::lemma_escape_json_script_safe(id.description);
    crate::escape::lemma_escape_json_script_safe(spec_full_avatar(id));
    assert(forall|j: int| 0 <= j < jld_before_name().len() ==> (#[trigger] jld_before_name()[j])
        != '<');
    assert(forall|j: int| 0 <= j < jld_before_url().len() ==> (#[trigger] jld_before_url()[j])
        != '<');
    assert(forall|j: int|
        0 <= j < jld_before_description().len() ==> (#[trigger] jld_before_description()[j])
            != '<');
    assert(forall|j: int| 0 <= j < jld_before_image().len() ==> (#[trigger] jld_before_image()[j])
        != '<');
    assert(forall|j: int| 0 <= j < jld_after_image().len() ==> (#[trigger] jld_after_image()[j])
        != '<');
}

/// The head component placeholder: the head itself is produced by
/// `generate_head_html`, so this renders an empty fragment.
#[allow(non_snake_case)]
pub fn Head() -> (r: String)
    ensures
        r@ == Seq::<char>::empty(),
{
    String::new()
}

} // verus!
