use webapps::common::{Browser, BrowserType, WebAppLauncher};
use webapps::pages::creator::{AppCreator, FormError, Message};
use webapps::warning::WarnMessages;

fn firefox() -> Browser {
    Browser::new(BrowserType::Firefox, "Firefox".to_string(), "/usr/bin/firefox".to_string())
}

fn chromium() -> Browser {
    Browser::new(BrowserType::Chromium, "Chromium".to_string(), "/usr/bin/chromium".to_string())
}

fn launcher() -> WebAppLauncher {
    WebAppLauncher::new(
        "Example".to_string(),
        Some("example0001".to_string()),
        "https://example.com".to_string(),
        "/icons/example.png".to_string(),
        "Network".to_string(),
        chromium(),
        "--kiosk".to_string(),
        true,
        true,
        false,
    )
}

#[test]
fn empty_form_breaks_every_rule() {
    let form = AppCreator::new();
    assert_eq!(
        form.validate(),
        vec![
            WarnMessages::AppName,
            WarnMessages::AppUrl,
            WarnMessages::AppIcon,
            WarnMessages::AppBrowser
        ]
    );
    assert!(!form.edit_mode);
    assert_eq!(form.selected_browser, None);
}

#[test]
fn form_without_icon_breaks_exactly_the_icon_rule() {
    let mut form = AppCreator::new();
    form.app_url = "https://example.com".to_string();
    form.app_title = "Example".to_string();
    form.app_browser = firefox();
    assert_eq!(form.validate(), vec![WarnMessages::AppIcon]);
}

#[test]
fn short_title_breaks_the_name_rule() {
    let mut form = AppCreator::new();
    form.app_title = "Ex".to_string();
    assert!(form.validate().contains(&WarnMessages::AppName));
    assert!(form.breaks(WarnMessages::AppName));
    form.app_title = "Exa".to_string();
    assert!(form.validate().contains(&WarnMessages::AppName));
    form.app_title = "Exam".to_string();
    assert!(!form.validate().contains(&WarnMessages::AppName));
    assert!(!form.breaks(WarnMessages::AppName));
}

#[test]
fn validate_gives_the_same_list_for_the_same_fields() {
    let mut left = AppCreator::new();
    left.app_title = "Example".to_string();
    left.app_url = "ftp://example.com".to_string();
    let mut right = AppCreator::new();
    right.app_title = "Example".to_string();
    right.app_url = "ftp://example.com".to_string();
    right.edit_mode = true;
    right.app_category = "Office".to_string();
    right.app_navbar = true;
    assert_eq!(left.validate(), right.validate());
    assert_eq!(left.validate(), left.validate());
    assert_eq!(
        left.validate(),
        vec![WarnMessages::AppUrl, WarnMessages::AppIcon, WarnMessages::AppBrowser]
    );
}

#[test]
fn valid_form_breaks_nothing() {
    let mut form = AppCreator::new();
    form.load_from(&launcher(), &vec![firefox(), chromium()]).unwrap();
    assert!(form.validate().is_empty());
    assert!(!form.breaks(WarnMessages::Info));
    assert!(!form.breaks(WarnMessages::AppUrl));
    assert!(!form.breaks(WarnMessages::AppIcon));
    assert!(!form.breaks(WarnMessages::AppBrowser));
}

#[test]
fn load_from_copies_every_field() {
    let mut form = AppCreator::new();
    let loaded = form.load_from(&launcher(), &vec![firefox(), chromium()]);
    assert_eq!(loaded, Ok(()));
    assert_eq!(form.app_title, "Example");
    assert_eq!(form.app_url, "https://example.com");
    assert_eq!(form.app_icon, "/icons/example.png");
    assert_eq!(form.app_category, "Network");
    assert_eq!(form.app_parameters, "--kiosk");
    assert_eq!(form.app_browser, chromium());
    assert_eq!(form.selected_browser, Some(1));
    assert!(form.app_isolated);
    assert!(form.app_navbar);
    assert!(!form.app_incognito);
    assert!(form.edit_mode);
}

#[test]
fn load_from_fails_when_the_browser_is_gone() {
    let mut form = AppCreator::new();
    let loaded = form.load_from(&launcher(), &vec![firefox()]);
    assert_eq!(loaded, Err(FormError::BrowserNotFound));
    assert_eq!(form.app_title, "Example");
    assert_eq!(form.app_browser, Browser::none());
    assert_eq!(form.selected_browser, None);
    assert!(form.edit_mode);
    assert_eq!(form.validate(), vec![WarnMessages::AppBrowser]);
}

#[test]
fn edit_round_trip_gives_the_launcher_back() {
    let recorded = launcher();
    let mut form = AppCreator::new();
    form.load_from(&recorded, &vec![chromium()]).unwrap();
    let again = form.launcher(recorded.codename.clone());
    assert_eq!(again, recorded);
    assert_eq!(again.codename, Some("example0001".to_string()));
}

#[test]
fn launcher_of_new_form_has_no_codename() {
    let mut form = AppCreator::new();
    form.app_title = "Example".to_string();
    let entry = form.launcher(None);
    assert_eq!(entry.codename, None);
    assert_eq!(entry.name, "Example");
    assert!(!entry.is_valid());
}

#[test]
fn reset_clears_the_form() {
    let mut form = AppCreator::new();
    form.load_from(&launcher(), &vec![chromium()]).unwrap();
    form.reset();
    assert_eq!(form.app_title, "");
    assert_eq!(form.app_url, "");
    assert_eq!(form.app_icon, "");
    assert_eq!(form.app_browser, Browser::none());
    assert_eq!(form.selected_browser, None);
    assert!(!form.edit_mode);
    assert!(!form.app_isolated);
}

#[test]
fn update_sets_the_field_and_names_the_rule() {
    let browsers = vec![firefox(), chromium()];
    let mut form = AppCreator::new();
    assert_eq!(
        form.update(Message::Title("Example".to_string()), &browsers),
        Some(WarnMessages::AppName)
    );
    assert_eq!(form.app_title, "Example");
    assert_eq!(
        form.update(Message::Url("https://example.com".to_string()), &browsers),
        Some(WarnMessages::AppUrl)
    );
    assert_eq!(form.app_url, "https://example.com");
    assert_eq!(form.update(Message::Arguments("--x".to_string()), &browsers), None);
    assert_eq!(form.app_parameters, "--x");
    assert_eq!(form.update(Message::Category("Office".to_string()), &browsers), None);
    assert_eq!(form.app_category, "Office");
    assert_eq!(form.update(Message::Isolated(true), &browsers), None);
    assert_eq!(form.update(Message::Navbar(true), &browsers), None);
    assert_eq!(form.update(Message::Incognito(true), &browsers), None);
    assert!(form.app_isolated && form.app_navbar && form.app_incognito);
}

#[test]
fn update_browser_picks_from_the_list() {
    let browsers = vec![firefox(), chromium()];
    let mut form = AppCreator::new();
    assert_eq!(form.update(Message::Browser(1), &browsers), Some(WarnMessages::AppBrowser));
    assert_eq!(form.app_browser, chromium());
    assert_eq!(form.selected_browser, Some(1));
    form.update(Message::Browser(2), &browsers);
    assert_eq!(form.app_browser, Browser::none());
    assert_eq!(form.selected_browser, None);
}
