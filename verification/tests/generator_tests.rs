use everythingsings::app::{assemble_document, render_to_html};
use everythingsings::cli::{parse_args, CliAction};
use everythingsings::config::{default_catalog, default_identity};
use everythingsings::escape::{escape_html_text, escape_json_text};
use everythingsings::head::{generate_head_html, generate_json_ld, Head};
use everythingsings::link_list::{render_link, LinkList};
use everythingsings::model::{
    validate_catalog, validate_identity, LinkCatalog, LinkEntry, LinkGroup, SiteIdentity,
};
use everythingsings::profile_card::ProfileCard;

fn identity(name: &str, url: &str, description: &str, avatar_path: &str) -> SiteIdentity {
    SiteIdentity {
        name: name.to_owned(),
        url: url.to_owned(),
        description: description.to_owned(),
        avatar_path: avatar_path.to_owned(),
    }
}

fn entry(label: &str, href: &str, description: Option<&str>) -> LinkEntry {
    LinkEntry {
        label: label.to_owned(),
        href: href.to_owned(),
        description: description.map(|d| d.to_owned()),
    }
}

#[test]
fn document_title_and_og_image() {
    let html = render_to_html(&default_identity(), &default_catalog());
    assert!(
        html.contains("<title>EverythingSings | Digital Artist</title>"),
        "Document title should be the site name with the fixed suffix"
    );
    assert!(
        html.contains("property=\"og:image\" content=\"https://everythingsings.art/avatar.png\""),
        "og:image should be the fully-qualified avatar URL"
    );
}

#[test]
fn document_counts_groups_and_items() {
    let html = render_to_html(&default_identity(), &default_catalog());
    assert_eq!(
        html.matches("<section class=\"link-group\"").count(),
        5,
        "Document should render exactly 5 group containers"
    );
    assert_eq!(
        html.matches("<li class=\"link-item\">").count(),
        10,
        "Document should render exactly 10 link items"
    );
}

#[test]
fn assemble_document_is_deterministic() {
    let a = assemble_document("HEAD", "BODY");
    let b = assemble_document("HEAD", "BODY");
    assert_eq!(a, b, "Identical inputs must give byte-identical documents");
    assert_eq!(a, "<!DOCTYPE html>\n<html lang=\"en\">\nHEAD\nBODY\n</html>");
}

#[test]
fn render_to_html_is_deterministic() {
    let a = render_to_html(&default_identity(), &default_catalog());
    let b = render_to_html(&default_identity(), &default_catalog());
    assert_eq!(a, b, "Rendering the same model twice must give identical output");
}

#[test]
fn cli_generate_static_is_recognized() {
    let args = vec!["prog".to_owned(), "--generate-static".to_owned()];
    assert_eq!(parse_args(&args), CliAction::Generate);
}

#[test]
fn cli_help_flags_are_recognized() {
    let long = vec!["prog".to_owned(), "--help".to_owned()];
    let short = vec!["prog".to_owned(), "-h".to_owned()];
    assert_eq!(parse_args(&long), CliAction::Help);
    assert_eq!(parse_args(&short), CliAction::Help);
}

#[test]
fn cli_missing_argument_is_a_usage_error() {
    let args = vec!["prog".to_owned()];
    assert_eq!(parse_args(&args), CliAction::MissingArg);
}

#[test]
fn cli_unknown_argument_is_a_usage_error() {
    let args = vec!["prog".to_owned(), "--frobnicate".to_owned()];
    assert_eq!(parse_args(&args), CliAction::UnknownOption);
}

#[test]
fn html_escape_replaces_special_characters() {
    assert_eq!(
        escape_html_text("a<b&c\"d>e'f"),
        "a&lt;b&amp;c&quot;d&gt;e'f"
    );
    assert_eq!(escape_html_text(""), "");
}

#[test]
fn json_escape_replaces_special_characters() {
    assert_eq!(escape_json_text("a\\b\"c\nd\te\rf"), "a\\\\b\\\"c\\nd\\te\\rf");
    assert_eq!(escape_json_text(""), "");
}

#[test]
fn json_escape_covers_controls_and_lt() {
    assert_eq!(escape_json_text("<tag>"), "\\u003ctag>");
    assert_eq!(escape_json_text("\u{8}"), "\\u0008");
    assert_eq!(escape_json_text("\u{c}"), "\\u000c");
    assert_eq!(escape_json_text("\u{1f}"), "\\u001f");
    assert_eq!(escape_json_text("\u{0}"), "\\u0000");
}

#[test]
fn json_ld_value_cannot_close_the_script_block() {
    let id = identity("N", "https://e.org", "</script><script>alert(1)</script>", "/a.png");
    let json_ld = generate_json_ld(&id);
    assert!(
        !json_ld.contains('<'),
        "The JSON-LD content must never contain a raw angle bracket"
    );
    assert!(json_ld.contains("\\u003c/script>\\u003cscript>alert(1)\\u003c/script>"));
    let head = generate_head_html(&id);
    assert_eq!(
        head.matches("<script").count(),
        2,
        "Only the JSON-LD block and the fixed script element open a script tag"
    );
}

#[test]
fn escaped_name_appears_in_all_three_encodings() {
    let id = identity(
        "Art & \"Code\" <X>",
        "https://example.org",
        "A & B",
        "/a.png",
    );
    let json_ld = generate_json_ld(&id);
    assert!(
        json_ld.contains("\"name\": \"Art & \\\"Code\\\" \\u003cX>\""),
        "JSON-LD should carry the JSON-escaped name"
    );
    let card = ProfileCard(&id);
    assert!(
        card.contains("itemprop=\"name\">Art &amp; &quot;Code&quot; &lt;X&gt;</h1>"),
        "The p-name/microdata element should carry the HTML-escaped name"
    );
    let head = generate_head_html(&id);
    assert!(
        head.contains("<title>Art &amp; &quot;Code&quot; &lt;X&gt; | Digital Artist</title>"),
        "The title should carry the HTML-escaped name"
    );
}

#[test]
fn head_has_exactly_one_json_ld_block() {
    let html = generate_head_html(&default_identity());
    assert_eq!(
        html.matches("<script type=\"application/ld+json\">").count(),
        1,
        "The head must carry exactly one JSON-LD block"
    );
    assert!(html.contains("\"@type\": \"Person\""));
    assert!(html.contains("\"image\": \"https://everythingsings.art/avatar.png\""));
}

#[test]
fn json_ld_exact_output() {
    let id = identity("N", "https://e.org", "D", "/a.png");
    let expected = "{\n  \"@context\": \"https://schema.org\",\n  \"@type\": \"Person\",\n  \"name\": \"N\",\n  \"url\": \"https://e.org\",\n  \"description\": \"D\",\n  \"image\": \"https://e.org/a.png\",\n  \"sameAs\": []\n}";
    assert_eq!(generate_json_ld(&id), expected);
}

#[test]
fn groups_render_in_declaration_order() {
    let html = LinkList(&default_catalog());
    let positions: Vec<usize> = ["Create", "Think", "Build", "Support", "Connect"]
        .iter()
        .map(|name| {
            let marker = format!("link-group-label\">{}</h2>", name);
            html.find(&marker).expect("group label should be present")
        })
        .collect();
    for w in positions.windows(2) {
        assert!(w[0] < w[1], "Groups must appear in declaration order");
    }
}

#[test]
fn link_without_description_has_label_only() {
    let html = render_link(&entry("L", "https://x", None));
    let expected = "<li class=\"link-item\"><a href=\"https://x\" rel=\"me noopener\" itemprop=\"sameAs\" class=\"link-card\" title=\"L\"><span class=\"link-label\">L</span></a></li>";
    assert_eq!(html, expected);
    assert!(!html.contains("link-description"));
}

#[test]
fn link_with_description_has_both_spans() {
    let html = render_link(&entry("L", "https://x", Some("D")));
    let expected = "<li class=\"link-item\"><a href=\"https://x\" rel=\"me noopener\" itemprop=\"sameAs\" class=\"link-card\" title=\"D\"><span class=\"link-label\">L</span><span class=\"link-description\">D</span></a></li>";
    assert_eq!(html, expected);
}

#[test]
fn every_anchor_has_identity_annotations() {
    let html = LinkList(&default_catalog());
    let anchors = html.matches("<a href=").count();
    assert_eq!(anchors, 10);
    assert_eq!(html.matches("rel=\"me noopener\"").count(), anchors);
    assert_eq!(html.matches("itemprop=\"sameAs\"").count(), anchors);
}

#[test]
fn empty_label_still_renders_label_element() {
    let html = render_link(&entry("", "https://x", None));
    assert!(
        html.contains("<span class=\"link-label\"></span>"),
        "An empty label renders as empty text, never omits the element"
    );
}

#[test]
fn validate_identity_accepts_default_and_rejects_malformed() {
    assert!(validate_identity(&default_identity()));
    assert!(!validate_identity(&identity("", "https://e.org", "D", "/a.png")));
    assert!(!validate_identity(&identity("N", "http://e.org", "D", "/a.png")));
    assert!(!validate_identity(&identity("N", "https://e.org", "", "/a.png")));
    assert!(!validate_identity(&identity("N", "https://e.org", "D", "a.png")));
}

#[test]
fn validate_catalog_accepts_default_and_rejects_malformed() {
    assert!(validate_catalog(&default_catalog()));
    let duplicate = LinkCatalog {
        groups: vec![
            LinkGroup { name: "A".to_owned(), links: vec![entry("L", "https://x", None)] },
            LinkGroup { name: "A".to_owned(), links: vec![entry("M", "https://y", None)] },
        ],
    };
    assert!(!validate_catalog(&duplicate), "Duplicate group names are rejected");
    let empty_href = LinkCatalog {
        groups: vec![LinkGroup { name: "A".to_owned(), links: vec![entry("L", "", None)] }],
    };
    assert!(!validate_catalog(&empty_href), "An empty link target is rejected");
}

#[test]
fn head_component_renders_empty_fragment() {
    assert_eq!(Head(), "", "The head is produced by generate_head_html alone");
}

#[test]
fn document_structure_is_fixed() {
    let html = render_to_html(&default_identity(), &default_catalog());
    assert!(html.starts_with("<!DOCTYPE html>\n<html lang=\"en\">\n<head>"));
    assert!(html.ends_with("</body>\n</html>"));
    let head_end = html.find("</head>").expect("head should close");
    let body_start = html.find("<body").expect("body should open");
    assert!(head_end < body_start, "Head comes before body, no interleaving");
}
