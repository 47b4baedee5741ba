use daymural::identity::{web_url, APP_ID, DESCRIPTION, PACKAGE_NAME, PANEL_ICON};

#[test]
fn app_id_is_reverse_dns() {
    assert_eq!(APP_ID, "io.github.ercling.cosmic-applet-daymural");
    assert!(APP_ID.split('.').count() >= 3);
}

#[test]
fn cargo_identity_is_daymural() {
    const PROJECT_URL: &str = "https://github.com/ercling/cosmic-applet-daymural";

    assert_eq!(PACKAGE_NAME, "daymural");
    assert_eq!(daymural::identity::PROJECT_URL, PROJECT_URL);
    assert_eq!(
        DESCRIPTION,
        "Daymural: daily Microsoft Bing wallpaper applet for the COSMIC desktop"
    );
}

#[test]
fn panel_icon_is_symbolic() {
    assert!(PANEL_ICON.ends_with("-symbolic"));
}

#[test]
fn only_web_links_reach_xdg_open() {
    assert_eq!(web_url("https://www.bing.com/x"), Some("https://www.bing.com/x"));
    assert_eq!(web_url("http://example.com"), Some("http://example.com"));
    assert_eq!(web_url("file:///etc/passwd"), None);
    assert_eq!(web_url("/home/u/.ssh/id_ed25519"), None);
    assert_eq!(web_url("--version"), None);
    assert_eq!(web_url(""), None);
}

#[test]
fn a_web_link_needs_its_whole_scheme() {
    assert_eq!(web_url("https:/example.com"), None);
    assert_eq!(web_url("HTTPS://example.com"), None);
    assert_eq!(web_url(" https://example.com"), None);
    assert_eq!(web_url("http://"), Some("http://"));
    assert_eq!(web_url("https://exämple.com/ü"), Some("https://exämple.com/ü"));
}
