use webapps::common::{
    find_browser, get_icon_name_from_url, url_valid, Browser, BrowserType, WebAppLauncher,
};

fn firefox() -> Browser {
    Browser::new(BrowserType::Firefox, "Firefox".to_string(), "/usr/bin/firefox".to_string())
}

fn chromium() -> Browser {
    Browser::new(BrowserType::Chromium, "Chromium".to_string(), "/usr/bin/chromium".to_string())
}

#[test]
fn url_valid_accepts_both_schemes() {
    assert!(url_valid("https://example.com"));
    assert!(url_valid("http://example.com/path?x=1"));
    assert!(url_valid("http://"));
}

#[test]
fn url_valid_rejects_other_text() {
    assert!(!url_valid(""));
    assert!(!url_valid("example.com"));
    assert!(!url_valid("ftp://example.com"));
    assert!(!url_valid("https:/example.com"));
    assert!(!url_valid("HTTPS://example.com"));
    assert!(!url_valid(" https://example.com"));
    assert!(!url_valid("http:/"));
}

#[test]
fn icon_name_is_the_host() {
    assert_eq!(get_icon_name_from_url("https://example.com"), "example.com");
    assert_eq!(get_icon_name_from_url("http://example.com/a/b"), "example.com");
    assert_eq!(get_icon_name_from_url("https://www.example.org:8080/x"), "www.example.org");
    assert_eq!(get_icon_name_from_url("https://example.com?q=1"), "example.com");
    assert_eq!(get_icon_name_from_url("https://example.com#top"), "example.com");
}

#[test]
fn icon_name_of_other_text_is_empty() {
    assert_eq!(get_icon_name_from_url(""), "");
    assert_eq!(get_icon_name_from_url("example.com"), "");
    assert_eq!(get_icon_name_from_url("https://"), "");
    assert_eq!(get_icon_name_from_url("https:///path"), "");
}

#[test]
fn icon_name_keeps_characters_outside_ascii() {
    assert_eq!(get_icon_name_from_url("https://bücher.example/über"), "bücher.example");
}

#[test]
fn find_browser_gives_first_position() {
    let browsers = vec![firefox(), chromium(), firefox()];
    assert_eq!(find_browser(&browsers, "Firefox"), Some(0));
    assert_eq!(find_browser(&browsers, "Chromium"), Some(1));
    assert_eq!(find_browser(&browsers, "Falkon"), None);
    assert_eq!(find_browser(&Vec::new(), "Firefox"), None);
}

#[test]
fn no_browser_descriptor() {
    let none = Browser::none();
    assert_eq!(none._type, BrowserType::NoBrowser);
    assert_eq!(none.name, "");
    assert_eq!(none.command, "");
}

fn launcher(name: &str, url: &str, icon: &str, browser: Browser) -> WebAppLauncher {
    WebAppLauncher::new(
        name.to_string(),
        None,
        url.to_string(),
        icon.to_string(),
        "Network".to_string(),
        browser,
        String::new(),
        false,
        true,
        false,
    )
}

#[test]
fn launcher_new_keeps_fields() {
    let entry = WebAppLauncher::new(
        "Example".to_string(),
        Some("example1234".to_string()),
        "https://example.com".to_string(),
        "/icons/example.png".to_string(),
        "Network".to_string(),
        firefox(),
        "--private".to_string(),
        true,
        false,
        true,
    );
    assert_eq!(entry.codename, Some("example1234".to_string()));
    assert_eq!(entry.name, "Example");
    assert_eq!(entry.url, "https://example.com");
    assert_eq!(entry.icon, "/icons/example.png");
    assert_eq!(entry.category, "Network");
    assert_eq!(entry.web_browser, firefox());
    assert_eq!(entry.custom_parameters, "--private");
    assert!(entry.isolate_profile);
    assert!(!entry.navbar);
    assert!(entry.is_incognito);
    assert_eq!(entry.clone(), entry);
}

#[test]
fn launcher_is_valid_when_all_rules_are_met() {
    assert!(launcher("Example", "https://example.com", "/icons/e.png", firefox()).is_valid());
    assert!(launcher("Exam", "http://e", "i", chromium()).is_valid());
}

#[test]
fn launcher_is_invalid_when_a_rule_is_broken() {
    assert!(!launcher("Exa", "https://example.com", "/icons/e.png", firefox()).is_valid());
    assert!(!launcher("Example", "example.com", "/icons/e.png", firefox()).is_valid());
    assert!(!launcher("Example", "https://example.com", "", firefox()).is_valid());
    assert!(!launcher("Example", "https://example.com", "/icons/e.png", Browser::none()).is_valid());
}

#[test]
fn launcher_validity_follows_the_fields() {
    let mut entry = launcher("Example", "https://example.com", "/icons/e.png", firefox());
    assert!(entry.is_valid());
    entry.icon = String::new();
    assert!(!entry.is_valid());
    entry.icon = "/icons/e.png".to_string();
    assert!(entry.is_valid());
}

#[test]
fn name_length_counts_characters() {
    assert!(!launcher("äöü", "https://example.com", "/icons/e.png", firefox()).is_valid());
    assert!(launcher("äöüß", "https://example.com", "/icons/e.png", firefox()).is_valid());
}
