//! Browsers, launchers and the rules on the text of a launcher's fields.

use vstd::prelude::*;

verus! {

/// The family of a browser; `NoBrowser` stands for "none selected".
#[derive(Debug, Clone, Copy, PartialEq, Eq, Structural)]
pub enum BrowserType {
    NoBrowser,
    Firefox,
    FirefoxFlatpak,
    Chromium,
    ChromiumFlatpak,
    Epiphany,
    Falkon,
    FalkonFlatpak,
}

/// The mathematical model of a [`Browser`].
pub struct BrowserView {
    pub _type: BrowserType,
    pub name: Seq<char>,
    pub command: Seq<char>,
}

impl BrowserView {
    /// The descriptor that stands for "no browser selected".
    pub open spec fn none() -> BrowserView {
        BrowserView { _type: BrowserType::NoBrowser, name: Seq::empty(), command: Seq::empty() }
    }
}

/// A browser that can wrap a web app: its family, the name it is listed
/// under and the command that starts it.
#[derive(Debug, PartialEq, Eq)]
pub struct Browser {
    pub _type: BrowserType,
    pub name: String,
    pub command: String,
}

impl View for Browser {
    type V = BrowserView;

    open spec fn view(&self) -> BrowserView {
        BrowserView { _type: self._type, name: self.name@, command: self.command@ }
    }
}

impl DeepView for Browser {
    type V = BrowserView;

    open spec fn deep_view(&self) -> BrowserView {
        self@
    }
}

impl Clone for Browser {
    fn clone(&self) -> (copy: Self)
        ensures
            copy == *self,
    {
        Browser { _type: self._type, name: self.name.clone(), command: self.command.clone() }
    }
}

impl Browser {
    pub fn new(_type: BrowserType, name: String, command: String) -> (browser: Self)
        ensures
            browser@ == (BrowserView { _type, name: name@, command: command@ }),
    {
        Browser { _type, name, command }
    }

    /// The descriptor that stands for "no browser selected".
    pub fn none() -> (browser: Self)
        ensures
            browser@ == BrowserView::none(),
    {
        Browser { _type: BrowserType::NoBrowser, name: String::new(), command: String::new() }
    }
}

/// `index` is the first place in `browsers` that holds a browser called
/// `name`.
pub open spec fn is_first_named(browsers: Seq<BrowserView>, name: Seq<char>, index: int) -> bool {
    &&& 0 <= index < browsers.len()
    &&& browsers[index].name == name
    &&& forall|j: int| 0 <= j < index ==> browsers[j].name != name
}

/// The first place in `browsers` that holds a browser called `name`, if there
/// is one.
pub open spec fn browser_position(browsers: Seq<BrowserView>, name: Seq<char>) -> Option<int> {
    if exists|index: int| is_first_named(browsers, name, index) {
        Some(choose|index: int| is_first_named(browsers, name, index))
    } else {
        None
    }
}

/// Looks `name` up in the list of supported browsers.
pub fn find_browser(browsers: &Vec<Browser>, name: &str) -> (position: Option<usize>)
    ensures
        position.is_some() <==> exists|j: int|
            0 <= j < browsers.len() && (#[trigger] browsers[j]).name@ == name@,
        match position {
            Some(index) => browser_position(browsers.deep_view(), name@) == Some(index as int),
            None => browser_position(browsers.deep_view(), name@) == None::<int>,
        },
{
    let mut i: usize = 0;
    while i < browsers.len()
        invariant
            i <= browsers.len(),
            forall|j: int| 0 <= j < i ==> (#[trigger] browsers[j]).name@ != name@,
        decreases browsers.len() - i,
    {
        if same_text(browsers[i].name.as_str(), name) {
            assert(is_first_named(browsers.deep_view(), name@, i as int));
            return Some(i);
        }
        i += 1;
    }
    assert(forall|index: int| !is_first_named(browsers.deep_view(), name@, index));
    None
}

/// A name is accepted when it has more than three characters.
pub open spec fn name_valid(name: Seq<char>) -> bool {
    name.len() > 3
}

/// A URL is accepted when it starts with `http://` or with `https://`.
pub open spec fn url_valid_spec(url: Seq<char>) -> bool {
    "http://"@.is_prefix_of(url) || "https://"@.is_prefix_of(url)
}

/// An icon is accepted when its path is not empty.
pub open spec fn icon_valid(icon: Seq<char>) -> bool {
    icon.len() > 0
}

/// A browser is accepted unless it is "none selected".
pub open spec fn browser_valid(browser: BrowserView) -> bool {
    browser._type != BrowserType::NoBrowser
}

/// A character that ends the host part of a URL.
pub open spec fn ends_host(c: char) -> bool {
    c == '/' || c == ':' || c == '?' || c == '#'
}

/// The length of the longest prefix of `rest` that holds no character that
/// ends a host.
pub open spec fn host_len(rest: Seq<char>) -> int
    decreases rest.len(),
{
    if rest.len() == 0 || ends_host(rest[0]) {
        0
    } else {
        1 + host_len(rest.drop_first())
    }
}

/// The number of characters that the scheme and its `://` take at the start
/// of an accepted URL.
pub open spec fn scheme_len(url: Seq<char>) -> int {
    if "https://"@.is_prefix_of(url) {
        "https://"@.len() as int
    } else {
        "http://"@.len() as int
    }
}

/// The host of an accepted URL: what follows the scheme, up to the first
/// `/`, `:`, `?` or `#`. Any other text has no host.
pub open spec fn url_host(url: Seq<char>) -> Seq<char> {
    if url_valid_spec(url) {
        let rest = url.skip(scheme_len(url));
        rest.take(host_len(rest))
    } else {
        Seq::empty()
    }
}

pub(crate) fn starts_with(text: &str, prefix: &str) -> (found: bool)
    ensures
        found == prefix@.is_prefix_of(text@),
{
    let n: usize = prefix.unicode_len();
    if text.unicode_len() < n {
        return false;
    }
    let mut i: usize = 0;
    while i < n
        invariant
            i <= n,
            n == prefix@.len(),
            n <= text@.len(),
            forall|j: int| 0 <= j < i ==> text@[j] == prefix@[j],
        decreases n - i,
    {
        if text.get_char(i) != prefix.get_char(i) {
            return false;
        }
        i += 1;
    }
    assert(text@.subrange(0, n as int) =~= prefix@);
    true
}

pub(crate) fn same_text(left: &str, right: &str) -> (same: bool)
    ensures
        same == (left@ == right@),
{
    let same = left.unicode_len() == right.unicode_len() && starts_with(left, right);
    assert(same ==> left@ =~= right@);
    same
}

fn chars_of(text: &str) -> (chars: Vec<char>)
    ensures
        chars@ == text@,
{
    let mut chars: Vec<char> = Vec::new();
    for c in it: text.chars()
        invariant
            it.seq() == text@,
            chars@ == it.seq().take(it.index() as int),
    {
        chars.push(c);
        assert(it.seq().take(it.index() + 1) =~= it.seq().take(it.index() as int).push(c));
    }
    assert(chars@ =~= text@);
    chars
}

fn is_host_end(c: char) -> (ends: bool)
    ensures
        ends == ends_host(c),
{
    c == '/' || c == ':' || c == '?' || c == '#'
}

/// Whether `url` starts with one of the accepted schemes.
pub fn url_valid(url: &str) -> (valid: bool)
    ensures
        valid == url_valid_spec(url@),
{
    starts_with(url, "http://") || starts_with(url, "https://")
}

/// The name under which icons for the site at `url` are searched: its host.
pub fn get_icon_name_from_url(url: &str) -> (name: String)
    ensures
        name@ == url_host(url@),
{
    let start: usize = if starts_with(url, "https://") {
        8
    } else if starts_with(url, "http://") {
        7
    } else {
        return String::new();
    };
    proof {
        reveal_strlit("https://");
        reveal_strlit("http://");
    }
    let chars = chars_of(url);
    let mut end: usize = start;
    while end < chars.len() && !is_host_end(chars[end])
        invariant
            start <= end <= chars.len(),
            chars@ == url@,
            host_len(url@.skip(start as int)) == (end - start) + host_len(url@.skip(end as int)),
        decreases chars.len() - end,
    {
        assert(url@.skip(end as int).drop_first() =~= url@.skip(end + 1));
        end += 1;
    }
    assert(url@.skip(start as int).take(end - start) =~= url@.subrange(start as int, end as int));
    url.substring_char(start, end).to_owned()
}

/// The file stem that `std::path::Path::file_stem` finds in `path`: the last
/// component of the path without its extension, where the path has such a
/// component.
pub uninterp spec fn file_stem_of(path: Seq<char>) -> Option<Seq<char>>;

/// Calls `std::path::Path::file_stem` on `path` and hands the stem back as
/// text. The contract gives the result a name and says nothing else of it.
#[verifier::external_body]
pub(crate) fn file_stem(path: &str) -> (stem: Option<String>)
    ensures
        stem.deep_view() == file_stem_of(path@),
{
    std::path::Path::new(path).file_stem().and_then(|stem| stem.to_str()).map(|stem| stem.to_owned())
}

/// The mathematical model of a [`WebAppLauncher`].
pub struct LauncherView {
    pub codename: Option<Seq<char>>,
    pub name: Seq<char>,
    pub url: Seq<char>,
    pub icon: Seq<char>,
    pub category: Seq<char>,
    pub web_browser: BrowserView,
    pub custom_parameters: Seq<char>,
    pub isolate_profile: bool,
    pub navbar: bool,
    pub is_incognito: bool,
}

impl LauncherView {
    /// A launcher can be persisted when its name, URL, icon and browser are
    /// all accepted.
    pub open spec fn is_valid(self) -> bool {
        &&& name_valid(self.name)
        &&& url_valid_spec(self.url)
        &&& icon_valid(self.icon)
        &&& browser_valid(self.web_browser)
    }
}

/// A web app entry: a URL wrapped by a browser, with the options it is
/// started with. `codename` is what identifies a persisted launcher; a
/// launcher that was never persisted has none.
#[derive(Debug, PartialEq, Eq)]
pub struct WebAppLauncher {
    pub codename: Option<String>,
    pub name: String,
    pub url: String,
    pub icon: String,
    pub category: String,
    pub web_browser: Browser,
    pub custom_parameters: String,
    pub isolate_profile: bool,
    pub navbar: bool,
    pub is_incognito: bool,
}

impl View for WebAppLauncher {
    type V = LauncherView;

    open spec fn view(&self) -> LauncherView {
        LauncherView {
            codename: self.codename.deep_view(),
            name: self.name@,
            url: self.url@,
            icon: self.icon@,
            category: self.category@,
            web_browser: self.web_browser@,
            custom_parameters: self.custom_parameters@,
            isolate_profile: self.isolate_profile,
            navbar: self.navbar,
            is_incognito: self.is_incognito,
        }
    }
}

impl DeepView for WebAppLauncher {
    type V = LauncherView;

    open spec fn deep_view(&self) -> LauncherView {
        self@
    }
}

impl Clone for WebAppLauncher {
    fn clone(&self) -> (copy: Self)
        ensures
            copy == *self,
    {
        WebAppLauncher {
            codename: self.codename.clone(),
            name: self.name.clone(),
            url: self.url.clone(),
            icon: self.icon.clone(),
            category: self.category.clone(),
            web_browser: self.web_browser.clone(),
            custom_parameters: self.custom_parameters.clone(),
            isolate_profile: self.isolate_profile,
            navbar: self.navbar,
            is_incognito: self.is_incognito,
        }
    }
}

impl WebAppLauncher {
    pub fn new(
        name: String,
        codename: Option<String>,
        url: String,
        icon: String,
        category: String,
        browser: Browser,
        custom_parameters: String,
        isolated: bool,
        navbar: bool,
        privatewindow: bool,
    ) -> (launcher: Self)
        ensures
            launcher@ == (LauncherView {
                codename: codename.deep_view(),
                name: name@,
                url: url@,
                icon: icon@,
                category: category@,
                web_browser: browser@,
                custom_parameters: custom_parameters@,
                isolate_profile: isolated,
                navbar,
                is_incognito: privatewindow,
            }),
    {
        WebAppLauncher {
            codename,
            name,
            url,
            icon,
            category,
            web_browser: browser,
            custom_parameters,
            isolate_profile: isolated,
            navbar,
            is_incognito: privatewindow,
        }
    }

    /// Whether the launcher can be persisted, worked out from its fields as
    /// they are now.
    pub fn is_valid(&self) -> (valid: bool)
        ensures
            valid == self@.is_valid(),
    {
        self.name.as_str().unicode_len() > 3 && url_valid(self.url.as_str())
            && self.icon.as_str().unicode_len() > 0 && self.web_browser._type
            != BrowserType::NoBrowser
    }
}

} // verus!
