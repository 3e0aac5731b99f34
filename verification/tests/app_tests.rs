use everythingsings::app::{App, Body};
use everythingsings::config::{default_catalog, default_identity};

#[test]
fn app_renders_body_element() {
    let html = App(&default_identity(), &default_catalog());
    assert!(html.contains("<body"), "App should render <body> element");
}

#[test]
fn app_does_not_render_head() {
    // Head is rendered separately via generate_head_html()
    let html = App(&default_identity(), &default_catalog());
    assert!(
        !html.contains("<head"),
        "App should not render <head> (handled by generate_head_html)"
    );
}

#[test]
fn body_has_webpage_microdata() {
    let html = Body(&default_identity(), &default_catalog());
    assert!(
        html.contains("itemtype=\"https://schema.org/WebPage\""),
        "Body should have WebPage microdata"
    );
}

#[test]
fn body_contains_main_element() {
    let html = Body(&default_identity(), &default_catalog());
    assert!(html.contains("<main"), "Body should contain <main> element");
}

#[test]
fn body_contains_footer() {
    let html = Body(&default_identity(), &default_catalog());
    assert!(html.contains("<footer"), "Body should contain <footer> element");
}
