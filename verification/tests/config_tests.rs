use everythingsings::config::{AVATAR_PATH, SITE_DOMAIN, SITE_URL};

#[test]
fn config_site_url_is_https() {
    assert!(SITE_URL.starts_with("https://"));
}

#[test]
fn config_site_url_contains_domain() {
    assert!(SITE_URL.contains(SITE_DOMAIN));
}

#[test]
fn config_avatar_path_is_absolute() {
    assert!(AVATAR_PATH.starts_with('/'));
}
