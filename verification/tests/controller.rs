use webapps::common::{Browser, BrowserType, WebAppLauncher};
use webapps::pages::creator::Message as Edit;
use webapps::pages::iconpicker::{Icon, IconType};
use webapps::pages::icons_installator::{ExitStatus, InstallState, Installator};
use webapps::pages::{
    Buttons, Command, DialogResult, HeaderTitle, IconUse, Message, Pages, Window,
};
use webapps::warning::{WarnAction, WarnMessages};

fn firefox() -> Browser {
    Browser::new(BrowserType::Firefox, "Firefox".to_string(), "/usr/bin/firefox".to_string())
}

fn chromium() -> Browser {
    Browser::new(BrowserType::Chromium, "Chromium".to_string(), "/usr/bin/chromium".to_string())
}

fn icon(path: &str) -> Icon {
    Icon::new(IconType::Raster, path.to_string())
}

fn launcher() -> WebAppLauncher {
    WebAppLauncher::new(
        "Example".to_string(),
        Some("example0001".to_string()),
        "https://example.com".to_string(),
        "/icons/example.png".to_string(),
        "Network".to_string(),
        chromium(),
        "--kiosk".to_string(),
        true,
        true,
        false,
    )
}

fn started() -> Window {
    let (window, commands) = Window::init(true, vec![firefox(), chromium()]);
    assert!(commands.is_empty());
    window
}

fn with_form(title: &str, url: &str) -> Window {
    let mut window = started();
    window.update(Message::Creator(Edit::Title(title.to_string())));
    window.update(Message::Creator(Edit::Url(url.to_string())));
    window.update(Message::Creator(Edit::Browser(0)));
    window
}

fn messages(window: &Window) -> Vec<WarnMessages> {
    window.warning().messages().clone()
}

#[test]
fn init_with_icon_pack_shows_home() {
    let (window, commands) = Window::init(true, vec![firefox()]);
    assert!(commands.is_empty());
    assert_eq!(window.current_page(), &Pages::MainWindow);
    assert!(!window.dialog_open());
    assert!(window.icon_pack_installed());
    assert!(window.warning().is_empty());
    assert!(window.warning().show());
    assert_eq!(window.browsers(), &vec![firefox()]);
    assert_eq!(window.header_title(), HeaderTitle::App);
}

#[test]
fn init_without_icon_pack_shows_installator() {
    let (window, commands) = Window::init(false, Vec::new());
    assert_eq!(commands, vec![Command::PrepareInstallScript]);
    assert_eq!(window.current_page(), &Pages::IconInstallator(Installator::new()));
    assert_eq!(window.header_title(), HeaderTitle::IconInstaller);
}

#[test]
fn install_script_is_run_when_pack_is_missing() {
    let (mut window, _) = Window::init(false, Vec::new());
    let commands = window.update(Message::InstallScript("/tmp/install.sh".to_string()));
    assert_eq!(commands, vec![Command::RunScript("/tmp/install.sh".to_string())]);
    assert_eq!(
        window.current_page(),
        &Pages::IconInstallator(Installator {
            state: InstallState::Running("/tmp/install.sh".to_string())
        })
    );
}

#[test]
fn install_script_is_not_run_when_pack_is_there() {
    let mut window = started();
    let commands = window.update(Message::InstallScript("/tmp/install.sh".to_string()));
    assert!(commands.is_empty());
    assert_eq!(window.current_page(), &Pages::MainWindow);
}

#[test]
fn failed_install_stays_on_installator() {
    let (mut window, _) = Window::init(false, Vec::new());
    window.update(Message::InstallScript("s".to_string()));
    let commands = window.update(Message::InstallCommand(ExitStatus { code: Some(1) }));
    assert!(commands.is_empty());
    assert_eq!(
        window.current_page(),
        &Pages::IconInstallator(Installator { state: InstallState::Completed(false) })
    );
    assert!(!window.icon_pack_installed());
    window.update(Message::InstallCommand(ExitStatus { code: None }));
    assert_eq!(
        window.current_page(),
        &Pages::IconInstallator(Installator { state: InstallState::Completed(false) })
    );
}

#[test]
fn successful_install_shows_home() {
    let (mut window, _) = Window::init(false, Vec::new());
    window.update(Message::InstallScript("s".to_string()));
    let commands = window.update(Message::InstallCommand(ExitStatus { code: Some(0) }));
    assert!(commands.is_empty());
    assert_eq!(window.current_page(), &Pages::MainWindow);
    assert!(window.icon_pack_installed());
}

#[test]
fn exit_status_success_is_code_zero() {
    assert!(ExitStatus { code: Some(0) }.success());
    assert!(!ExitStatus { code: Some(2) }.success());
    assert!(!ExitStatus { code: Some(-1) }.success());
    assert!(!ExitStatus { code: None }.success());
}

#[test]
fn navigation_sets_the_page() {
    let mut window = started();
    assert!(window.update(Message::OpenIconPicker).is_empty());
    assert_eq!(window.current_page(), &Pages::IconPicker);
    assert_eq!(window.header_title(), HeaderTitle::IconSelector);
    assert!(window.update(Message::OpenCreator).is_empty());
    assert_eq!(window.current_page(), &Pages::AppCreator);
    assert_eq!(window.header_title(), HeaderTitle::CreateNewWebApp);
    assert!(window.update(Message::OpenHome).is_empty());
    assert_eq!(window.current_page(), &Pages::MainWindow);
}

#[test]
fn open_creator_repopulates_warnings_from_scratch() {
    let mut window = started();
    window.update(Message::Warning((WarnAction::Add, WarnMessages::Info)));
    window.update(Message::OpenCreator);
    assert_eq!(
        messages(&window),
        vec![
            WarnMessages::AppName,
            WarnMessages::AppUrl,
            WarnMessages::AppIcon,
            WarnMessages::AppBrowser
        ]
    );
    let mut filled = with_form("Example", "https://example.com");
    filled.update(Message::OpenCreator);
    assert_eq!(messages(&filled), vec![WarnMessages::AppIcon]);
}

#[test]
fn close_creator_leaves_edit_mode() {
    let mut window = started();
    window.update(Message::Clicked(Buttons::Edit(launcher())));
    assert!(window.creator_window().edit_mode);
    window.update(Message::OpenCreator);
    assert_eq!(window.header_title(), HeaderTitle::Edit("Example".to_string()));
    window.update(Message::CloseCreator);
    assert_eq!(window.current_page(), &Pages::MainWindow);
    assert!(!window.creator_window().edit_mode);
}

#[test]
fn form_edits_keep_warnings_up_to_date() {
    let mut window = started();
    window.update(Message::Creator(Edit::Title("Ex".to_string())));
    assert_eq!(messages(&window), vec![WarnMessages::AppName]);
    window.update(Message::Creator(Edit::Url("example.com".to_string())));
    assert_eq!(messages(&window), vec![WarnMessages::AppName, WarnMessages::AppUrl]);
    window.update(Message::Creator(Edit::Title("Example".to_string())));
    assert_eq!(messages(&window), vec![WarnMessages::AppUrl]);
    window.update(Message::Creator(Edit::Url("https://example.com".to_string())));
    assert!(window.warning().is_empty());
    window.update(Message::Creator(Edit::Browser(7)));
    assert_eq!(messages(&window), vec![WarnMessages::AppBrowser]);
    window.update(Message::Creator(Edit::Browser(1)));
    assert!(window.warning().is_empty());
    assert_eq!(window.creator_window().app_browser, chromium());
    window.update(Message::Creator(Edit::Navbar(true)));
    assert!(window.warning().is_empty());
    assert!(window.creator_window().app_navbar);
}

#[test]
fn warning_message_adds_and_removes() {
    let mut window = started();
    window.update(Message::Warning((WarnAction::Add, WarnMessages::AppIcon)));
    window.update(Message::Warning((WarnAction::Add, WarnMessages::AppIcon)));
    assert_eq!(messages(&window), vec![WarnMessages::AppIcon]);
    window.update(Message::Warning((WarnAction::Remove, WarnMessages::AppIcon)));
    assert!(window.warning().is_empty());
}

#[test]
fn submit_without_icon_is_rejected() {
    let mut window = with_form("Example", "https://example.com");
    window.update(Message::OpenCreator);
    assert_eq!(window.creator_window().validate(), vec![WarnMessages::AppIcon]);
    let commands = window.update(Message::DoneCreate);
    assert!(commands.is_empty());
    assert_eq!(window.current_page(), &Pages::AppCreator);
    assert_eq!(messages(&window), vec![WarnMessages::AppIcon]);
    assert!(!window.creator_window().edit_mode);
}

#[test]
fn submit_of_valid_form_persists() {
    let mut window = with_form("Example", "https://example.com");
    window.update(Message::SelectIcon(icon("/icons/example.png")));
    window.update(Message::OpenCreator);
    let commands = window.update(Message::DoneCreate);
    let entry = WebAppLauncher::new(
        "Example".to_string(),
        None,
        "https://example.com".to_string(),
        "/icons/example.png".to_string(),
        String::new(),
        firefox(),
        String::new(),
        false,
        false,
        false,
    );
    assert_eq!(
        commands,
        vec![
            Command::CacheIcon {
                source: "/icons/example.png".to_string(),
                key: "Example".to_string(),
                usage: IconUse::Persist
            },
            Command::CreateLauncher(entry),
        ]
    );
    assert_eq!(window.current_page(), &Pages::AppCreator);
    assert!(window.warning().is_empty());
    assert!(window.update(Message::IconCached(IconUse::Persist, "/m/Example.png".to_string())).is_empty());
    assert_eq!(window.creator_window().app_icon, "/icons/example.png");
    assert_eq!(window.current_page(), &Pages::AppCreator);
    assert!(window.update(Message::LauncherPersisted(true)).is_empty());
    assert_eq!(window.current_page(), &Pages::MainWindow);
    assert!(window.warning().is_empty());
}

#[test]
fn failed_persist_is_reported_and_the_page_stays() {
    let mut window = with_form("Example", "https://example.com");
    window.update(Message::SelectIcon(icon("/icons/example.png")));
    window.update(Message::OpenCreator);
    assert_eq!(window.update(Message::DoneCreate).len(), 2);
    let commands = window.update(Message::LauncherPersisted(false));
    assert!(commands.is_empty());
    assert_eq!(window.current_page(), &Pages::AppCreator);
    assert_eq!(messages(&window), vec![WarnMessages::Info]);
    assert_eq!(window.creator_window().app_title, "Example");
    assert_eq!(
        window.warning().shown_lines(),
        vec!["You don't meet requirements".to_string(), "You don't meet requirements".to_string()]
    );
    window.update(Message::LauncherPersisted(false));
    assert_eq!(messages(&window), vec![WarnMessages::Info]);
    assert_eq!(window.update(Message::DoneCreate).len(), 2);
    window.update(Message::LauncherPersisted(true));
    assert_eq!(window.current_page(), &Pages::MainWindow);
}

#[test]
fn failed_delete_is_reported() {
    let mut window = started();
    let commands = window.update(Message::Clicked(Buttons::Delete(launcher())));
    assert_eq!(commands, vec![Command::DeleteLauncher(launcher())]);
    assert!(window.update(Message::LauncherDeleted(true)).is_empty());
    assert!(window.warning().is_empty());
    assert!(window.update(Message::LauncherDeleted(false)).is_empty());
    assert_eq!(messages(&window), vec![WarnMessages::Info]);
    assert_eq!(window.current_page(), &Pages::MainWindow);
}

#[test]
fn edit_loads_the_launcher_and_clears_warnings() {
    let mut window = started();
    window.update(Message::OpenCreator);
    assert_eq!(window.warning().len(), 4);
    let commands = window.update(Message::Clicked(Buttons::Edit(launcher())));
    assert_eq!(
        commands,
        vec![Command::LoadLauncherIcon { path: "/icons/example.png".to_string() }]
    );
    assert!(window.warning().is_empty());
    assert!(window.main_window().edit_mode);
    assert_eq!(window.main_window().launcher, Some(launcher()));
    assert_eq!(window.creator_window().app_title, "Example");
    assert_eq!(window.creator_window().selected_browser, Some(1));
    assert!(window.creator_window().edit_mode);
}

#[test]
fn edit_with_missing_browser_raises_the_browser_warning() {
    let mut window = started();
    window.set_browsers(vec![firefox()]);
    window.update(Message::Clicked(Buttons::Edit(launcher())));
    assert_eq!(messages(&window), vec![WarnMessages::AppBrowser]);
    assert_eq!(window.creator_window().app_browser, Browser::none());
    assert_eq!(window.creator_window().selected_browser, None);
    assert_eq!(window.creator_window().app_title, "Example");
}

#[test]
fn edit_then_submit_recreates_the_launcher() {
    let mut window = started();
    window.update(Message::Clicked(Buttons::Edit(launcher())));
    window.update(Message::OpenCreator);
    let commands = window.update(Message::DoneEdit);
    assert_eq!(
        commands,
        vec![
            Command::DeleteLauncher(launcher()),
            Command::CacheIcon {
                source: "/icons/example.png".to_string(),
                key: "Example".to_string(),
                usage: IconUse::Persist
            },
            Command::CreateLauncher(launcher()),
        ]
    );
    assert_eq!(window.current_page(), &Pages::AppCreator);
    assert!(!window.creator_window().edit_mode);
    window.update(Message::LauncherDeleted(true));
    window.update(Message::LauncherPersisted(true));
    assert_eq!(window.current_page(), &Pages::MainWindow);
    assert!(window.warning().is_empty());
}

#[test]
fn done_edit_without_launcher_only_leaves_edit_mode() {
    let mut window = with_form("Example", "https://example.com");
    let commands = window.update(Message::DoneEdit);
    assert!(commands.is_empty());
    assert_eq!(window.current_page(), &Pages::MainWindow);
    assert!(window.warning().is_empty());
}

#[test]
fn done_edit_of_invalid_form_deletes_and_stays() {
    let mut window = started();
    window.update(Message::Clicked(Buttons::Edit(launcher())));
    window.update(Message::OpenCreator);
    window.update(Message::Creator(Edit::Title("Ex".to_string())));
    let commands = window.update(Message::DoneEdit);
    assert_eq!(commands, vec![Command::DeleteLauncher(launcher())]);
    assert_eq!(window.current_page(), &Pages::AppCreator);
    assert_eq!(messages(&window), vec![WarnMessages::AppName, WarnMessages::AppIcon]);
}

#[test]
fn delete_keeps_the_page() {
    let mut window = started();
    window.update(Message::OpenIconPicker);
    let commands = window.update(Message::Clicked(Buttons::Delete(launcher())));
    assert_eq!(commands, vec![Command::DeleteLauncher(launcher())]);
    assert_eq!(window.current_page(), &Pages::IconPicker);
}

#[test]
fn favicon_search_needs_a_valid_url() {
    let mut window = with_form("Example", "example.com");
    assert!(window.update(Message::Clicked(Buttons::SearchFavicon)).is_empty());
    assert_eq!(window.icon_selector().generation(), 0);
    assert!(!window.icon_selector().loading());
}

#[test]
fn favicon_search_uses_the_host() {
    let mut window = with_form("Example", "https://www.example.com/start");
    let commands = window.update(Message::Clicked(Buttons::SearchFavicon));
    assert_eq!(
        commands,
        vec![Command::SearchIcons {
            generation: 1,
            query: "www.example.com".to_string(),
            url: "https://www.example.com/start".to_string()
        }]
    );
    assert!(window.icon_selector().loading());
    assert_eq!(window.icon_selector().icon_searching(), "www.example.com");
}

#[test]
fn icon_search_prefers_the_text() {
    let mut window = with_form("Example", "https://example.com");
    window.update(Message::CustomIconsSearch("firefox".to_string()));
    assert!(!window.icon_selector().loading());
    let commands = window.update(Message::PerformIconSearch);
    assert_eq!(
        commands,
        vec![Command::SearchIcons {
            generation: 1,
            query: "firefox".to_string(),
            url: "https://example.com".to_string()
        }]
    );
}

#[test]
fn icon_search_falls_back_to_the_host() {
    let mut window = with_form("Example", "https://example.com");
    let commands = window.update(Message::PerformIconSearch);
    assert_eq!(
        commands,
        vec![Command::SearchIcons {
            generation: 1,
            query: "example.com".to_string(),
            url: "https://example.com".to_string()
        }]
    );
}

#[test]
fn icon_search_without_text_and_url_issues_nothing() {
    let mut window = started();
    assert!(window.update(Message::PerformIconSearch).is_empty());
    assert!(window.icon_selector().icons().is_empty());
}

#[test]
fn my_icons_searches_the_managed_directory() {
    let mut window = started();
    window.update(Message::CustomIconsSearch("fire".to_string()));
    let commands = window.update(Message::MyIcons);
    assert_eq!(
        commands,
        vec![Command::SearchLocalIcons { generation: 1, query: "fire".to_string() }]
    );
    assert!(window.icon_selector().loading());
}

#[test]
fn found_icons_fan_out() {
    let mut window = with_form("Example", "https://example.com");
    window.update(Message::Clicked(Buttons::SearchFavicon));
    let commands =
        window.update(Message::FoundIcons(1, vec!["/a.png".to_string(), "/b.svg".to_string()]));
    assert_eq!(
        commands,
        vec![
            Command::LoadCandidate { generation: 1, path: "/a.png".to_string() },
            Command::LoadCandidate { generation: 1, path: "/b.svg".to_string() },
        ]
    );
    assert!(window.update(Message::FoundIcons(1, Vec::new())).is_empty());
}

#[test]
fn push_icon_ingests_and_signals_loading_done() {
    let mut window = with_form("Example", "https://example.com");
    window.update(Message::OpenCreator);
    assert_eq!(messages(&window), vec![WarnMessages::AppIcon]);
    window.update(Message::Clicked(Buttons::SearchFavicon));
    let commands = window.update(Message::PushIcon(1, Some(icon("/a.png"))));
    assert_eq!(commands, vec![Command::FinishLoading]);
    assert_eq!(window.icon_selector().icons().len(), 1);
    assert!(window.warning().is_empty());
    window.update(Message::PushIcon(1, Some(icon("/a.png"))));
    assert_eq!(window.icon_selector().icons().len(), 1);
    let commands = window.update(Message::PushIcon(1, None));
    assert_eq!(commands, vec![Command::FinishLoading]);
    assert_eq!(window.icon_selector().icons().len(), 1);
}

#[test]
fn first_arrival_is_selected_after_loading() {
    let mut window = with_form("Example", "https://example.com");
    window.update(Message::Clicked(Buttons::SearchFavicon));
    window.update(Message::FoundIcons(
        1,
        vec!["/c.png".to_string(), "/b.png".to_string(), "/a.png".to_string()],
    ));
    for path in ["/a.png", "/b.png", "/c.png"] {
        window.update(Message::PushIcon(1, Some(icon(path))));
        let commands = window.update(Message::LoadingDone);
        assert_eq!(
            commands,
            vec![Command::CacheIcon {
                source: "/a.png".to_string(),
                key: "Example".to_string(),
                usage: IconUse::AutoPick
            }]
        );
        assert_eq!(window.icon_selector().selected(), &Some(icon("/a.png")));
    }
    assert!(!window.icon_selector().loading());
    window.update(Message::IconCached(IconUse::AutoPick, "/managed/Example.png".to_string()));
    assert_eq!(window.creator_window().app_icon, "/managed/Example.png");
}

#[test]
fn loading_done_on_empty_store_issues_nothing() {
    let mut window = started();
    window.update(Message::MyIcons);
    assert!(window.update(Message::LoadingDone).is_empty());
    assert!(!window.icon_selector().loading());
    assert!(window.icon_selector().selected().is_none());
}

#[test]
fn stale_results_are_dropped() {
    let mut window = with_form("Example", "https://example.com");
    window.update(Message::Clicked(Buttons::SearchFavicon));
    window.update(Message::Clicked(Buttons::SearchFavicon));
    window.update(Message::FoundIcons(1, vec!["/one.png".to_string()]));
    window.update(Message::Clicked(Buttons::SearchFavicon));
    assert_eq!(window.icon_selector().generation(), 3);
    assert!(window.update(Message::FoundIcons(2, vec!["/two.png".to_string()])).is_empty());
    assert!(window.update(Message::PushIcon(1, Some(icon("/one.png")))).is_empty());
    assert!(window.update(Message::PushIcon(2, Some(icon("/two.png")))).is_empty());
    assert!(window.icon_selector().icons().is_empty());
    assert!(window.icon_selector().loading());
    let commands = window.update(Message::FoundIcons(3, vec!["/three.png".to_string()]));
    assert_eq!(
        commands,
        vec![Command::LoadCandidate { generation: 3, path: "/three.png".to_string() }]
    );
    window.update(Message::PushIcon(3, Some(icon("/three.png"))));
    window.update(Message::PushIcon(2, Some(icon("/late.png"))));
    assert_eq!(window.icon_selector().icons(), &vec![icon("/three.png")]);
}

#[test]
fn user_pick_selects_and_returns_to_creator() {
    let mut window = with_form("Example", "https://example.com");
    window.update(Message::OpenCreator);
    window.update(Message::OpenIconPicker);
    let commands = window.update(Message::ChangeIcon(icon("/b.png")));
    assert_eq!(
        commands,
        vec![Command::CacheIcon {
            source: "/b.png".to_string(),
            key: "Example".to_string(),
            usage: IconUse::UserPick
        }]
    );
    assert_eq!(window.current_page(), &Pages::AppCreator);
    assert_eq!(window.icon_selector().selected(), &Some(icon("/b.png")));
    assert_eq!(messages(&window), vec![WarnMessages::AppIcon]);
    window.update(Message::IconCached(IconUse::UserPick, "/managed/Example.png".to_string()));
    assert_eq!(window.creator_window().app_icon, "/managed/Example.png");
    assert!(window.warning().is_empty());
}

#[test]
fn user_pick_outside_the_picker_is_ignored() {
    let mut window = with_form("Example", "https://example.com");
    assert!(window.update(Message::ChangeIcon(icon("/b.png"))).is_empty());
    assert_eq!(window.current_page(), &Pages::MainWindow);
    assert!(window.icon_selector().selected().is_none());
}

#[test]
fn user_pick_without_saved_path_raises_the_icon_warning() {
    let mut window = with_form("Example", "https://example.com");
    window.update(Message::OpenIconPicker);
    window.update(Message::ChangeIcon(icon("/b.png")));
    window.update(Message::IconCached(IconUse::UserPick, String::new()));
    assert_eq!(messages(&window), vec![WarnMessages::AppIcon]);
    assert_eq!(window.creator_window().app_icon, "");
}

#[test]
fn set_icon_restores_the_launcher_icon() {
    let mut window = started();
    window.update(Message::Clicked(Buttons::Edit(launcher())));
    let commands = window.update(Message::SetIcon(icon("/icons/example.png")));
    assert_eq!(
        commands,
        vec![Command::CacheIcon {
            source: "/icons/example.png".to_string(),
            key: "Example".to_string(),
            usage: IconUse::Restore
        }]
    );
    assert_eq!(window.current_page(), &Pages::AppCreator);
    let commands =
        window.update(Message::IconCached(IconUse::Restore, "/managed/Example.png".to_string()));
    assert_eq!(
        commands,
        vec![Command::LoadSelectedIcon { path: "/managed/Example.png".to_string() }]
    );
    assert_eq!(window.creator_window().app_icon, "/managed/Example.png");
    window.update(Message::SelectIcon(icon("/managed/Example.png")));
    assert_eq!(window.icon_selector().selected(), &Some(icon("/managed/Example.png")));
    assert_eq!(window.creator_window().app_icon, "/managed/Example.png");
}

#[test]
fn only_one_dialog_is_open() {
    let mut window = started();
    assert!(window.update(Message::DialogIconPicker).is_empty());
    assert_eq!(window.update(Message::OpenIconPickerDialog), vec![Command::OpenDialog]);
    assert!(window.dialog_open());
    assert!(window.update(Message::OpenIconPickerDialog).is_empty());
    assert_eq!(window.update(Message::DialogIconPicker), vec![Command::UpdateDialog]);
    assert!(window.update(Message::OpenFileResult(DialogResult::Cancel)).is_empty());
    assert!(!window.dialog_open());
    assert_eq!(window.update(Message::OpenIconPickerDialog), vec![Command::OpenDialog]);
}

#[test]
fn chosen_file_is_imported_under_its_stem() {
    let mut window = started();
    window.update(Message::OpenIconPickerDialog);
    let commands = window.update(Message::OpenFileResult(DialogResult::Open(vec![
        None,
        Some("..".to_string()),
        Some("/home/user/pictures/firefox.png".to_string()),
        Some("/home/user/pictures/other.png".to_string()),
    ])));
    assert_eq!(
        commands,
        vec![
            Command::CacheIcon {
                source: "/home/user/pictures/firefox.png".to_string(),
                key: "firefox".to_string(),
                usage: IconUse::Import
            },
            Command::SearchLocalIcons { generation: 1, query: String::new() },
        ]
    );
    assert!(!window.dialog_open());
    assert!(window.update(Message::IconCached(IconUse::Import, "/m/firefox.png".to_string())).is_empty());
    assert_eq!(window.creator_window().app_icon, "");
}

#[test]
fn chosen_files_without_stem_import_nothing() {
    let mut window = started();
    window.update(Message::OpenIconPickerDialog);
    let commands = window.update(Message::OpenFileResult(DialogResult::Open(vec![
        None,
        Some("/".to_string()),
        Some("..".to_string()),
    ])));
    assert!(commands.is_empty());
    assert!(!window.dialog_open());
    assert_eq!(window.icon_selector().generation(), 0);
    assert!(window.update(Message::OpenFileResult(DialogResult::Open(Vec::new()))).is_empty());
}

#[test]
fn import_icon_caches_and_rescans() {
    let mut window = started();
    window.update(Message::CustomIconsSearch("old".to_string()));
    let commands = window.import_icon("/x/y.svg".to_string(), "y".to_string());
    assert_eq!(
        commands,
        vec![
            Command::CacheIcon {
                source: "/x/y.svg".to_string(),
                key: "y".to_string(),
                usage: IconUse::Import
            },
            Command::SearchLocalIcons { generation: 1, query: String::new() },
        ]
    );
    assert!(window.icon_selector().loading());
    assert_eq!(window.icon_selector().icon_searching(), "");
}

#[test]
fn cloned_message_does_the_same() {
    let message = Message::FoundIcons(0, vec!["/a.png".to_string()]);
    let mut left = started();
    let mut right = started();
    assert_eq!(left.update(message.clone()), right.update(message));
    let message = Message::Clicked(Buttons::Edit(launcher()));
    assert_eq!(left.update(message.clone()), right.update(message));
    assert_eq!(left.creator_window().app_title, right.creator_window().app_title);
}
