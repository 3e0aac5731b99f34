use everythingsings::config::{default_identity, SITE_NAME, SITE_URL, THEME_COLOR};
use everythingsings::head::{generate_head_html, generate_json_ld};

fn render_head() -> String {
    generate_head_html(&default_identity())
}

fn render_json_ld() -> String {
    generate_json_ld(&default_identity())
}

#[test]
fn head_contains_charset() {
    let html = render_head();
    assert!(
        html.contains("charset=\"utf-8\""),
        "Head should specify UTF-8 charset"
    );
}

#[test]
fn head_contains_viewport() {
    let html = render_head();
    assert!(
        html.contains("name=\"viewport\""),
        "Head should contain viewport meta tag"
    );
}

#[test]
fn head_contains_title() {
    let html = render_head();
    assert!(html.contains("<title>"), "Head should contain title element");
    assert!(html.contains(SITE_NAME), "Title should contain site name");
}

#[test]
fn head_contains_description() {
    let html = render_head();
    assert!(
        html.contains("name=\"description\""),
        "Head should contain description meta tag"
    );
}

#[test]
fn head_contains_canonical_url() {
    let html = render_head();
    assert!(
        html.contains("rel=\"canonical\""),
        "Head should contain canonical link"
    );
    assert!(html.contains(SITE_URL), "Canonical should point to site URL");
}

#[test]
fn head_contains_open_graph_tags() {
    let html = render_head();
    assert!(html.contains("og:type"), "Head should contain Open Graph type");
    assert!(html.contains("og:title"), "Head should contain Open Graph title");
    assert!(
        html.contains("og:description"),
        "Head should contain Open Graph description"
    );
    assert!(html.contains("og:image"), "Head should contain Open Graph image");
}

#[test]
fn head_contains_twitter_card_tags() {
    let html = render_head();
    assert!(
        html.contains("twitter:card"),
        "Head should contain Twitter card type"
    );
    assert!(
        html.contains("twitter:title"),
        "Head should contain Twitter title"
    );
}

#[test]
fn head_contains_json_ld() {
    let html = render_head();
    assert!(
        html.contains("application/ld+json"),
        "Head should contain JSON-LD script"
    );
}

#[test]
fn json_ld_has_schema_context() {
    let json_ld = render_json_ld();
    assert!(
        json_ld.contains("\"@context\": \"https://schema.org\""),
        "JSON-LD should have schema.org context"
    );
}

#[test]
fn json_ld_has_person_type() {
    let json_ld = render_json_ld();
    assert!(
        json_ld.contains("\"@type\": \"Person\""),
        "JSON-LD should have Person type"
    );
}

#[test]
fn json_ld_has_required_fields() {
    let json_ld = render_json_ld();
    assert!(json_ld.contains("\"name\":"), "JSON-LD should have name");
    assert!(json_ld.contains("\"url\":"), "JSON-LD should have url");
    assert!(
        json_ld.contains("\"description\":"),
        "JSON-LD should have description"
    );
    assert!(json_ld.contains("\"image\":"), "JSON-LD should have image");
    assert!(json_ld.contains("\"sameAs\":"), "JSON-LD should have sameAs array");
}

#[test]
fn head_links_stylesheet() {
    let html = render_head();
    assert!(html.contains("rel=\"stylesheet\""), "Head should link stylesheet");
    assert!(html.contains("main.css"), "Head should link to main.css");
}

#[test]
fn head_contains_favicon_ico() {
    let html = render_head();
    assert!(html.contains("favicon.ico"), "Head should link favicon.ico");
}

#[test]
fn head_contains_favicon_svg() {
    let html = render_head();
    assert!(html.contains("favicon.svg"), "Head should link favicon.svg");
    assert!(
        html.contains("type=\"image/svg+xml\""),
        "SVG favicon should have correct type"
    );
}

#[test]
fn head_contains_apple_touch_icon() {
    let html = render_head();
    assert!(
        html.contains("apple-touch-icon"),
        "Head should link apple-touch-icon"
    );
}

#[test]
fn head_contains_web_manifest() {
    let html = render_head();
    assert!(html.contains("rel=\"manifest\""), "Head should link web manifest");
    assert!(
        html.contains("site.webmanifest"),
        "Head should link to site.webmanifest"
    );
}

#[test]
fn head_contains_theme_color() {
    let html = render_head();
    assert!(
        html.contains("name=\"theme-color\""),
        "Head should have theme-color meta"
    );
    assert!(html.contains(THEME_COLOR), "Theme color should match constant");
}

#[test]
fn head_contains_rss_feed_link() {
    let html = render_head();
    assert!(
        html.contains("application/rss+xml"),
        "Head should have RSS feed link type"
    );
    assert!(html.contains("feed.xml"), "Head should link to feed.xml");
}
