//! The creator form: the fields of the launcher being written, and the rules
//! they have to meet before the launcher can be persisted.

use crate::common::{
    browser_position, browser_valid, find_browser, icon_valid, name_valid, url_valid,
    url_valid_spec, Browser, BrowserType, BrowserView, LauncherView, WebAppLauncher,
};
use crate::warning::WarnMessages;
use vstd::prelude::*;

verus! {

/// An edit of one field of the form.
#[derive(Debug, PartialEq, Eq)]
pub enum Message {
    Title(String),
    Url(String),
    Arguments(String),
    Category(String),
    /// The browser at this place of the list of supported browsers.
    Browser(usize),
    Isolated(bool),
    Navbar(bool),
    Incognito(bool),
}

impl Clone for Message {
    fn clone(&self) -> (copy: Self)
        ensures
            copy == *self,
    {
        match self {
            Message::Title(title) => Message::Title(title.clone()),
            Message::Url(url) => Message::Url(url.clone()),
            Message::Arguments(arguments) => Message::Arguments(arguments.clone()),
            Message::Category(category) => Message::Category(category.clone()),
            Message::Browser(index) => Message::Browser(*index),
            Message::Isolated(flag) => Message::Isolated(*flag),
            Message::Navbar(flag) => Message::Navbar(*flag),
            Message::Incognito(flag) => Message::Incognito(*flag),
        }
    }
}

/// Why a launcher could not be loaded into the form as it was recorded.
#[derive(Debug, Clone, Copy, PartialEq, Eq, Structural)]
pub enum FormError {
    /// No supported browser has the name that the launcher recorded.
    BrowserNotFound,
}

/// The mathematical model of an [`AppCreator`].
pub struct AppCreatorView {
    pub app_title: Seq<char>,
    pub app_url: Seq<char>,
    pub app_icon: Seq<char>,
    pub app_parameters: Seq<char>,
    pub app_category: Seq<char>,
    pub app_browser: BrowserView,
    pub selected_browser: Option<int>,
    pub app_isolated: bool,
    pub app_navbar: bool,
    pub app_incognito: bool,
    pub edit_mode: bool,
}

/// The one-entry list of `rule` where it is broken, the empty list where it
/// is met.
pub open spec fn broken_rule(broken: bool, rule: WarnMessages) -> Seq<WarnMessages> {
    if broken {
        seq![rule]
    } else {
        Seq::empty()
    }
}

impl AppCreatorView {
    /// The form with every field cleared, not editing.
    pub open spec fn empty() -> AppCreatorView {
        AppCreatorView {
            app_title: Seq::empty(),
            app_url: Seq::empty(),
            app_icon: Seq::empty(),
            app_parameters: Seq::empty(),
            app_category: Seq::empty(),
            app_browser: BrowserView::none(),
            selected_browser: None,
            app_isolated: false,
            app_navbar: false,
            app_incognito: false,
            edit_mode: false,
        }
    }

    /// The form after `launcher` was loaded into it for editing. Every field
    /// is the launcher's. Where the list of supported browsers no longer
    /// holds the launcher's browser, the form has no browser selected.
    pub open spec fn load_from(
        self,
        launcher: LauncherView,
        browsers: Seq<BrowserView>,
    ) -> AppCreatorView {
        let position = browser_position(browsers, launcher.web_browser.name);
        AppCreatorView {
            app_title: launcher.name,
            app_url: launcher.url,
            app_icon: launcher.icon,
            app_parameters: launcher.custom_parameters,
            app_category: launcher.category,
            app_browser: if position.is_some() {
                launcher.web_browser
            } else {
                BrowserView::none()
            },
            selected_browser: position,
            app_isolated: launcher.isolate_profile,
            app_navbar: launcher.navbar,
            app_incognito: launcher.is_incognito,
            edit_mode: true,
        }
    }

    /// The rules that the fields break as they are now, in the order name,
    /// URL, icon, browser.
    pub open spec fn violations(self) -> Seq<WarnMessages> {
        broken_rule(!name_valid(self.app_title), WarnMessages::AppName) + broken_rule(
            !url_valid_spec(self.app_url),
            WarnMessages::AppUrl,
        ) + broken_rule(!icon_valid(self.app_icon), WarnMessages::AppIcon) + broken_rule(
            !browser_valid(self.app_browser),
            WarnMessages::AppBrowser,
        )
    }

    /// Whether the fields break `rule` as they are now.
    pub open spec fn breaks(self, rule: WarnMessages) -> bool {
        match rule {
            WarnMessages::Info => false,
            WarnMessages::AppName => !name_valid(self.app_title),
            WarnMessages::AppUrl => !url_valid_spec(self.app_url),
            WarnMessages::AppIcon => !icon_valid(self.app_icon),
            WarnMessages::AppBrowser => !browser_valid(self.app_browser),
        }
    }

    /// The launcher that the fields describe, identified by `codename`.
    pub open spec fn launcher(self, codename: Option<Seq<char>>) -> LauncherView {
        LauncherView {
            codename,
            name: self.app_title,
            url: self.app_url,
            icon: self.app_icon,
            category: self.app_category,
            web_browser: self.app_browser,
            custom_parameters: self.app_parameters,
            isolate_profile: self.app_isolated,
            navbar: self.app_navbar,
            is_incognito: self.app_incognito,
        }
    }

    /// The form after the edit `message`, where `browsers` is the list of
    /// supported browsers. Choosing a place outside the list leaves no
    /// browser selected.
    pub open spec fn update(self, message: Message, browsers: Seq<BrowserView>) -> AppCreatorView {
        match message {
            Message::Title(title) => AppCreatorView { app_title: title@, ..self },
            Message::Url(url) => AppCreatorView { app_url: url@, ..self },
            Message::Arguments(arguments) => AppCreatorView { app_parameters: arguments@, ..self },
            Message::Category(category) => AppCreatorView { app_category: category@, ..self },
            Message::Browser(index) => if index < browsers.len() {
                AppCreatorView {
                    app_browser: browsers[index as int],
                    selected_browser: Some(index as int),
                    ..self
                }
            } else {
                AppCreatorView {
                    app_browser: BrowserView::none(),
                    selected_browser: None,
                    ..self
                }
            },
            Message::Isolated(flag) => AppCreatorView { app_isolated: flag, ..self },
            Message::Navbar(flag) => AppCreatorView { app_navbar: flag, ..self },
            Message::Incognito(flag) => AppCreatorView { app_incognito: flag, ..self },
        }
    }
}

/// The rule whose outcome an edit can change, if there is one.
pub open spec fn rule_of(message: Message) -> Option<WarnMessages> {
    match message {
        Message::Title(_) => Some(WarnMessages::AppName),
        Message::Url(_) => Some(WarnMessages::AppUrl),
        Message::Browser(_) => Some(WarnMessages::AppBrowser),
        _ => None,
    }
}

/// The fields of the launcher being created or edited.
#[derive(Debug)]
pub struct AppCreator {
    pub app_title: String,
    pub app_url: String,
    pub app_icon: String,
    pub app_parameters: String,
    pub app_category: String,
    pub app_browser: Browser,
    pub selected_browser: Option<usize>,
    pub app_isolated: bool,
    pub app_navbar: bool,
    pub app_incognito: bool,
    pub edit_mode: bool,
}

impl View for AppCreator {
    type V = AppCreatorView;

    open spec fn view(&self) -> AppCreatorView {
        AppCreatorView {
            app_title: self.app_title@,
            app_url: self.app_url@,
            app_icon: self.app_icon@,
            app_parameters: self.app_parameters@,
            app_category: self.app_category@,
            app_browser: self.app_browser@,
            selected_browser: match self.selected_browser {
                Some(index) => Some(index as int),
                None => None,
            },
            app_isolated: self.app_isolated,
            app_navbar: self.app_navbar,
            app_incognito: self.app_incognito,
            edit_mode: self.edit_mode,
        }
    }
}

impl AppCreator {
    /// An empty form.
    pub fn new() -> (form: Self)
        ensures
            form@ == AppCreatorView::empty(),
    {
        AppCreator {
            app_title: String::new(),
            app_url: String::new(),
            app_icon: String::new(),
            app_parameters: String::new(),
            app_category: String::new(),
            app_browser: Browser::none(),
            selected_browser: None,
            app_isolated: false,
            app_navbar: false,
            app_incognito: false,
            edit_mode: false,
        }
    }

    /// Clears every field and leaves edit mode.
    pub fn reset(&mut self)
        ensures
            final(self)@ == AppCreatorView::empty(),
    {
        *self = AppCreator::new();
    }

    /// Loads `launcher` into the form for editing and looks its browser up by
    /// name in `browsers`. Fails where the list does not hold the browser:
    /// the form then has no browser selected.
    pub fn load_from(&mut self, launcher: &WebAppLauncher, browsers: &Vec<Browser>) -> (loaded:
        Result<(), FormError>)
        ensures
            final(self)@ == old(self)@.load_from(launcher@, browsers.deep_view()),
            loaded.is_ok() <==> browser_position(
                browsers.deep_view(),
                launcher@.web_browser.name,
            ).is_some(),
            loaded.is_err() ==> loaded == Err::<(), FormError>(FormError::BrowserNotFound),
    {
        let position = find_browser(browsers, launcher.web_browser.name.as_str());
        self.app_title = launcher.name.clone();
        self.app_url = launcher.url.clone();
        self.app_icon = launcher.icon.clone();
        self.app_parameters = launcher.custom_parameters.clone();
        self.app_category = launcher.category.clone();
        self.app_isolated = launcher.isolate_profile;
        self.app_navbar = launcher.navbar;
        self.app_incognito = launcher.is_incognito;
        self.edit_mode = true;
        self.selected_browser = position;
        match position {
            Some(_) => {
                self.app_browser = launcher.web_browser.clone();
                Ok(())
            },
            None => {
                self.app_browser = Browser::none();
                Err(FormError::BrowserNotFound)
            },
        }
    }

    /// The rules that the fields break, worked out from the fields as they
    /// are now.
    pub fn validate(&self) -> (broken: Vec<WarnMessages>)
        ensures
            broken@ == self@.violations(),
    {
        let mut broken: Vec<WarnMessages> = Vec::new();
        if !(self.app_title.as_str().unicode_len() > 3) {
            broken.push(WarnMessages::AppName);
        }
        if !url_valid(self.app_url.as_str()) {
            broken.push(WarnMessages::AppUrl);
        }
        if !(self.app_icon.as_str().unicode_len() > 0) {
            broken.push(WarnMessages::AppIcon);
        }
        if self.app_browser._type == BrowserType::NoBrowser {
            broken.push(WarnMessages::AppBrowser);
        }
        assert(broken@ =~= self@.violations());
        broken
    }

    /// Whether the fields break `rule` as they are now.
    pub fn breaks(&self, rule: WarnMessages) -> (broken: bool)
        ensures
            broken == self@.breaks(rule),
    {
        match rule {
            WarnMessages::Info => false,
            WarnMessages::AppName => !(self.app_title.as_str().unicode_len() > 3),
            WarnMessages::AppUrl => !url_valid(self.app_url.as_str()),
            WarnMessages::AppIcon => !(self.app_icon.as_str().unicode_len() > 0),
            WarnMessages::AppBrowser => self.app_browser._type == BrowserType::NoBrowser,
        }
    }

    /// The launcher that the fields describe, identified by `codename`.
    pub fn launcher(&self, codename: Option<String>) -> (entry: WebAppLauncher)
        ensures
            entry@ == self@.launcher(codename.deep_view()),
    {
        WebAppLauncher::new(
            self.app_title.clone(),
            codename,
            self.app_url.clone(),
            self.app_icon.clone(),
            self.app_category.clone(),
            self.app_browser.clone(),
            self.app_parameters.clone(),
            self.app_isolated,
            self.app_navbar,
            self.app_incognito,
        )
    }

    /// Applies the edit `message`, where `browsers` is the list of supported
    /// browsers, and returns the rule whose outcome the edit can change.
    pub fn update(&mut self, message: Message, browsers: &Vec<Browser>) -> (rule: Option<
        WarnMessages,
    >)
        ensures
            final(self)@ == old(self)@.update(message, browsers.deep_view()),
            rule == rule_of(message),
    {
        match message {
            Message::Title(title) => {
                self.app_title = title;
                Some(WarnMessages::AppName)
            },
            Message::Url(url) => {
                self.app_url = url;
                Some(WarnMessages::AppUrl)
            },
            Message::Arguments(arguments) => {
                self.app_parameters = arguments;
                None
            },
            Message::Category(category) => {
                self.app_category = category;
                None
            },
            Message::Browser(index) => {
                if index < browsers.len() {
                    self.app_browser = browsers[index].clone();
                    self.selected_browser = Some(index);
                } else {
                    self.app_browser = Browser::none();
                    self.selected_browser = None;
                }
                Some(WarnMessages::AppBrowser)
            },
            Message::Isolated(flag) => {
                self.app_isolated = flag;
                None
            },
            Message::Navbar(flag) => {
                self.app_navbar = flag;
                None
            },
            Message::Incognito(flag) => {
                self.app_incognito = flag;
                None
            },
        }
    }
}

/// What the form reports as broken is a function of the title, the URL, the
/// icon path and the browser's family, and of nothing else: two forms that
/// agree on these break the same rules, in the same order.
pub proof fn lemma_violations_depend_on_fields_only(left: AppCreatorView, right: AppCreatorView)
    requires
        left.app_title == right.app_title,
        left.app_url == right.app_url,
        left.app_icon == right.app_icon,
        left.app_browser._type == right.app_browser._type,
    ensures
        left.violations() == right.violations(),
{
}

/// A rule is reported exactly when the fields break it, no rule is reported
/// twice, and the form reports nothing exactly when the launcher it
/// describes can be persisted.
pub proof fn lemma_violations_are_the_broken_rules(form: AppCreatorView)
    ensures
        forall|rule: WarnMessages| form.violations().contains(rule) <==> form.breaks(rule),
        form.violations().no_duplicates(),
        forall|codename: Option<Seq<char>>|
            form.violations().len() == 0 <==> (#[trigger] form.launcher(codename)).is_valid(),
{
    let name = broken_rule(!name_valid(form.app_title), WarnMessages::AppName);
    let url = broken_rule(!url_valid_spec(form.app_url), WarnMessages::AppUrl);
    let icon = broken_rule(!icon_valid(form.app_icon), WarnMessages::AppIcon);
    let browser = broken_rule(!browser_valid(form.app_browser), WarnMessages::AppBrowser);
    let all = form.violations();
    assert(all == name + url + icon + browser);
    assert forall|rule: WarnMessages| all.contains(rule) <==> form.breaks(rule) by {
        if form.breaks(rule) {
            match rule {
                WarnMessages::Info => {},
                WarnMessages::AppName => {
                    assert(all[0] == rule);
                },
                WarnMessages::AppUrl => {
                    assert(all[name.len() as int] == rule);
                },
                WarnMessages::AppIcon => {
                    assert(all[(name.len() + url.len()) as int] == rule);
                },
                WarnMessages::AppBrowser => {
                    assert(all[(name.len() + url.len() + icon.len()) as int] == rule);
                },
            }
        }
    }
}

/// Loading a launcher into the form and building a launcher from the form
/// again, under the codename of the first, gives the launcher that was
/// loaded, as long as its browser is still supported.
pub proof fn lemma_edit_round_trip(
    form: AppCreatorView,
    launcher: LauncherView,
    browsers: Seq<BrowserView>,
)
    requires
        browser_position(browsers, launcher.web_browser.name).is_some(),
    ensures
        form.load_from(launcher, browsers).launcher(launcher.codename) == launcher,
{
}

} // verus!
