use everythingsings::config::default_catalog;
use everythingsings::link_list::LinkList;

fn render_list() -> String {
    LinkList(&default_catalog())
}

fn total_link_count() -> usize {
    default_catalog().groups.iter().map(|g| g.links.len()).sum()
}

#[test]
fn list_is_nav_element() {
    let html = render_list();
    assert!(html.contains("<nav"), "Link list should be a nav element");
}

#[test]
fn list_has_aria_label() {
    let html = render_list();
    assert!(
        html.contains("aria-label="),
        "Nav should have aria-label for accessibility"
    );
}

#[test]
fn list_has_five_groups() {
    let html = render_list();
    // Count section elements with link-group class (not link-group-label)
    let group_count = html.matches("<section class=\"link-group\"").count();
    assert_eq!(group_count, 5, "Should have 5 link groups");
}

#[test]
fn groups_have_section_elements() {
    let html = render_list();
    assert!(html.contains("<section"), "Groups should use section elements");
}

#[test]
fn groups_have_labels() {
    let html = render_list();
    assert!(
        html.contains("link-group-label"),
        "Groups should have label class"
    );
    for group in &default_catalog().groups {
        assert!(
            html.contains(group.name.as_str()),
            "Group label '{}' should be present",
            group.name
        );
    }
}

#[test]
fn list_uses_ul_element() {
    let html = render_list();
    assert!(html.contains("<ul>"), "Link list should use unordered list");
}

#[test]
fn list_has_li_elements() {
    let html = render_list();
    assert!(
        html.contains("link-item"),
        "Link list should have link-item class on li"
    );
}

#[test]
fn links_have_card_class() {
    let html = render_list();
    assert!(html.contains("link-card"), "Links should have link-card class");
}

#[test]
fn links_have_label_span() {
    let html = render_list();
    assert!(html.contains("link-label"), "Links should have link-label span");
}

#[test]
fn links_have_description_span() {
    let html = render_list();
    assert!(
        html.contains("link-description"),
        "Links with descriptions should have link-description span"
    );
}

#[test]
fn links_have_rel_me() {
    let html = render_list();
    assert!(
        html.contains("rel=\"me"),
        "Links should have rel=\"me\" for identity verification"
    );
}

#[test]
fn links_have_noopener() {
    let html = render_list();
    assert!(
        html.contains("noopener"),
        "External links should have noopener for security"
    );
}

#[test]
fn links_have_sameas_itemprop() {
    let html = render_list();
    assert!(
        html.contains("itemprop=\"sameAs\""),
        "Links should have sameAs itemprop for Schema.org"
    );
}

#[test]
fn links_have_title_attribute() {
    let html = render_list();
    assert!(
        html.contains("title=\""),
        "Links should have title attribute for accessibility"
    );
}

#[test]
fn links_contain_all_labels() {
    let html = render_list();
    for group in &default_catalog().groups {
        for link in &group.links {
            assert!(
                html.contains(link.label.as_str()),
                "Link list should contain label: {}",
                link.label
            );
        }
    }
}

#[test]
fn total_links_count() {
    assert_eq!(total_link_count(), 10, "Should have 10 profile links total");
}

#[test]
fn groups_are_in_correct_order() {
    let expected = ["Create", "Think", "Build", "Support", "Connect"];
    for (i, group) in default_catalog().groups.iter().enumerate() {
        assert_eq!(group.name, expected[i], "Group {} should be '{}'", i, expected[i]);
    }
}
