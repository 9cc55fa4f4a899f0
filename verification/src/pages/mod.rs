//! The pages of the application, the events that the controller receives and
//! the tasks that it hands out.

pub mod creator;
pub mod home_screen;
pub mod iconpicker;
pub mod icons_installator;
pub mod model;

use crate::common::{
    file_stem, get_icon_name_from_url, url_valid, Browser, LauncherView, WebAppLauncher,
};
use crate::pages::creator::AppCreator;
use crate::pages::home_screen::Home;
use crate::pages::iconpicker::{Icon, IconPicker};
use crate::pages::icons_installator::{ExitStatus, InstallStateView, Installator};
use crate::pages::model::{first_importable, load_candidates, WindowView};
use crate::warning::{WarnAction, WarnMessages, Warning};
use vstd::prelude::*;

verus! {

/// A button of the creator page or of the home page.
#[derive(Debug, PartialEq, Eq)]
pub enum Buttons {
    SearchFavicon,
    Edit(WebAppLauncher),
    Delete(WebAppLauncher),
}

impl Clone for Buttons {
    fn clone(&self) -> (copy: Self)
        ensures
            copy == *self,
    {
        match self {
            Buttons::SearchFavicon => Buttons::SearchFavicon,
            Buttons::Edit(launcher) => Buttons::Edit(launcher.clone()),
            Buttons::Delete(launcher) => Buttons::Delete(launcher.clone()),
        }
    }
}

/// How the file dialog ended. A chosen path that is not valid Unicode text
/// is handed over as `None`.
#[derive(Debug, PartialEq, Eq)]
pub enum DialogResult {
    Cancel,
    Open(Vec<Option<String>>),
}

impl Clone for DialogResult {
    fn clone(&self) -> (copy: Self)
        ensures
            copy.deep_view() == self.deep_view(),
    {
        match self {
            DialogResult::Cancel => DialogResult::Cancel,
            DialogResult::Open(paths) => {
                let mut copies: Vec<Option<String>> = Vec::new();
                let mut i: usize = 0;
                while i < paths.len()
                    invariant
                        i <= paths.len(),
                        copies@ == paths@.take(i as int),
                    decreases paths.len() - i,
                {
                    copies.push(paths[i].clone());
                    assert(paths@.take(i + 1) =~= paths@.take(i as int).push(paths@[i as int]));
                    i += 1;
                }
                assert(paths@.take(i as int) =~= paths@);
                DialogResult::Open(copies)
            },
        }
    }
}

/// The mathematical model of a [`DialogResult`].
pub enum DialogResultView {
    Cancel,
    Open(Seq<Option<Seq<char>>>),
}

impl DeepView for DialogResult {
    type V = DialogResultView;

    open spec fn deep_view(&self) -> DialogResultView {
        match self {
            DialogResult::Cancel => DialogResultView::Cancel,
            DialogResult::Open(paths) => DialogResultView::Open(paths.deep_view()),
        }
    }
}

/// What an icon is copied into the managed icon directory for.
#[derive(Debug, Clone, Copy, PartialEq, Eq, Structural)]
pub enum IconUse {
    /// The first candidate of a search, picked when loading ended.
    AutoPick,
    /// The candidate that the user picked on the icon picker page.
    UserPick,
    /// The icon of a launcher that was opened for editing.
    Restore,
    /// A file that the user chose in the file dialog.
    Import,
    /// The icon of a launcher that is being persisted.
    Persist,
}

/// An event that the controller receives: an action of the user, or the
/// completion of a task that the controller handed out.
#[derive(Debug)]
pub enum Message {
    OpenHome,
    OpenCreator,
    CloseCreator,
    OpenIconPicker,
    OpenIconPickerDialog,
    /// An event of the open file dialog, which the shell keeps.
    DialogIconPicker,
    OpenFileResult(DialogResult),
    Creator(creator::Message),
    DoneEdit,
    DoneCreate,
    LoadingDone,
    Clicked(Buttons),
    CustomIconsSearch(String),
    ChangeIcon(Icon),
    MyIcons,
    PerformIconSearch,
    /// The paths that the search of this generation found.
    FoundIcons(u64, Vec<String>),
    /// An icon of the search of this generation was decoded, or could not be.
    PushIcon(u64, Option<Icon>),
    SetIcon(Icon),
    SelectIcon(Icon),
    /// An icon was copied into the managed icon directory, to this path.
    IconCached(IconUse, String),
    Warning((WarnAction, WarnMessages)),
    InstallScript(String),
    InstallCommand(ExitStatus),
    /// The launcher was persisted, or could not be.
    LauncherPersisted(bool),
    /// The persisted launcher was deleted, or could not be.
    LauncherDeleted(bool),
}

impl Clone for Message {
    /// A copy does to every state what the message it was made from does.
    fn clone(&self) -> (copy: Self)
        ensures
            forall|state: WindowView| #[trigger] state.step(copy) == state.step(*self),
    {
        match self {
            Message::OpenHome => Message::OpenHome,
            Message::OpenCreator => Message::OpenCreator,
            Message::CloseCreator => Message::CloseCreator,
            Message::OpenIconPicker => Message::OpenIconPicker,
            Message::OpenIconPickerDialog => Message::OpenIconPickerDialog,
            Message::DialogIconPicker => Message::DialogIconPicker,
            Message::OpenFileResult(result) => Message::OpenFileResult(result.clone()),
            Message::Creator(edit) => Message::Creator(edit.clone()),
            Message::DoneEdit => Message::DoneEdit,
            Message::DoneCreate => Message::DoneCreate,
            Message::LoadingDone => Message::LoadingDone,
            Message::Clicked(buttons) => Message::Clicked(buttons.clone()),
            Message::CustomIconsSearch(input) => Message::CustomIconsSearch(input.clone()),
            Message::ChangeIcon(icon) => Message::ChangeIcon(icon.clone()),
            Message::MyIcons => Message::MyIcons,
            Message::PerformIconSearch => Message::PerformIconSearch,
            Message::FoundIcons(generation, paths) => {
                let copies = paths.clone();
                assert(copies.deep_view() =~= paths.deep_view());
                Message::FoundIcons(*generation, copies)
            },
            Message::PushIcon(generation, icon) => Message::PushIcon(*generation, icon.clone()),
            Message::SetIcon(icon) => Message::SetIcon(icon.clone()),
            Message::SelectIcon(icon) => Message::SelectIcon(icon.clone()),
            Message::IconCached(usage, saved) => Message::IconCached(*usage, saved.clone()),
            Message::Warning((action, message)) => Message::Warning((*action, *message)),
            Message::InstallScript(script) => Message::InstallScript(script.clone()),
            Message::InstallCommand(status) => Message::InstallCommand(*status),
            Message::LauncherPersisted(done) => Message::LauncherPersisted(*done),
            Message::LauncherDeleted(done) => Message::LauncherDeleted(*done),
        }
    }
}

/// The mathematical model of a [`Pages`].
pub enum PagesView {
    MainWindow,
    AppCreator,
    IconPicker,
    IconInstallator(InstallStateView),
}

/// The page that is shown.
#[derive(Debug, PartialEq, Eq)]
pub enum Pages {
    MainWindow,
    AppCreator,
    IconPicker,
    IconInstallator(Installator),
}

impl View for Pages {
    type V = PagesView;

    open spec fn view(&self) -> PagesView {
        match self {
            Pages::MainWindow => PagesView::MainWindow,
            Pages::AppCreator => PagesView::AppCreator,
            Pages::IconPicker => PagesView::IconPicker,
            Pages::IconInstallator(installator) => PagesView::IconInstallator(installator@),
        }
    }
}

impl Clone for Pages {
    fn clone(&self) -> (copy: Self)
        ensures
            copy == *self,
    {
        match self {
            Pages::MainWindow => Pages::MainWindow,
            Pages::AppCreator => Pages::AppCreator,
            Pages::IconPicker => Pages::IconPicker,
            Pages::IconInstallator(installator) => Pages::IconInstallator(installator.clone()),
        }
    }
}

/// The mathematical model of a [`Command`].
pub enum CommandView {
    PrepareInstallScript,
    RunScript(Seq<char>),
    SearchIcons { generation: u64, query: Seq<char>, url: Seq<char> },
    SearchLocalIcons { generation: u64, query: Seq<char> },
    LoadCandidate { generation: u64, path: Seq<char> },
    LoadLauncherIcon { path: Seq<char> },
    LoadSelectedIcon { path: Seq<char> },
    CacheIcon { source: Seq<char>, key: Seq<char>, usage: IconUse },
    FinishLoading,
    OpenDialog,
    UpdateDialog,
    CreateLauncher(LauncherView),
    DeleteLauncher(LauncherView),
}

/// A task that the controller hands to the shell. The shell performs the
/// tasks of one event in the order in which they are listed, and answers a
/// task with the message named here once the task has completed.
#[derive(Debug, PartialEq, Eq)]
pub enum Command {
    /// Write the script that installs the icon pack; answered with
    /// `InstallScript` and the script.
    PrepareInstallScript,
    /// Run the script; answered with `InstallCommand` and how it ended.
    RunScript(String),
    /// Search the web and the icon themes for icons named `query` for the
    /// site at `url`; answered with `FoundIcons`, this generation and the
    /// paths found.
    SearchIcons { generation: u64, query: String, url: String },
    /// Search the managed icon directory for icons named `query`; answered
    /// with `FoundIcons`, this generation and the paths found.
    SearchLocalIcons { generation: u64, query: String },
    /// Decode the image at `path`; answered with `PushIcon`, this generation
    /// and the icon, or `None` where the image cannot be decoded.
    LoadCandidate { generation: u64, path: String },
    /// Decode the icon of the launcher opened for editing; answered with
    /// `SetIcon` and the icon, or with `OpenCreator` where the image cannot
    /// be decoded.
    LoadLauncherIcon { path: String },
    /// Decode the icon that was copied for the launcher opened for editing;
    /// answered with `SelectIcon` and the icon, or not at all where the image
    /// cannot be decoded.
    LoadSelectedIcon { path: String },
    /// Copy the icon at `source` into the managed icon directory under the
    /// name `key`; answered with `IconCached`, this usage and the path of
    /// the copy.
    CacheIcon { source: String, key: String, usage: IconUse },
    /// Answered at once with `LoadingDone`.
    FinishLoading,
    /// Open the file dialog; its events come back as `DialogIconPicker`, its
    /// result as `OpenFileResult`.
    OpenDialog,
    /// Hand the event that was received to the open file dialog.
    UpdateDialog,
    /// Persist the launcher; answered with `LauncherPersisted` and whether
    /// the launcher was persisted.
    CreateLauncher(WebAppLauncher),
    /// Delete the persisted launcher; answered with `LauncherDeleted` and
    /// whether the launcher was deleted.
    DeleteLauncher(WebAppLauncher),
}

impl View for Command {
    type V = CommandView;

    open spec fn view(&self) -> CommandView {
        match self {
            Command::PrepareInstallScript => CommandView::PrepareInstallScript,
            Command::RunScript(script) => CommandView::RunScript(script@),
            Command::SearchIcons { generation, query, url } => CommandView::SearchIcons {
                generation: *generation,
                query: query@,
                url: url@,
            },
            Command::SearchLocalIcons { generation, query } => CommandView::SearchLocalIcons {
                generation: *generation,
                query: query@,
            },
            Command::LoadCandidate { generation, path } => CommandView::LoadCandidate {
                generation: *generation,
                path: path@,
            },
            Command::LoadLauncherIcon { path } => CommandView::LoadLauncherIcon { path: path@ },
            Command::LoadSelectedIcon { path } => CommandView::LoadSelectedIcon { path: path@ },
            Command::CacheIcon { source, key, usage } => CommandView::CacheIcon {
                source: source@,
                key: key@,
                usage: *usage,
            },
            Command::FinishLoading => CommandView::FinishLoading,
            Command::OpenDialog => CommandView::OpenDialog,
            Command::UpdateDialog => CommandView::UpdateDialog,
            Command::CreateLauncher(launcher) => CommandView::CreateLauncher(launcher@),
            Command::DeleteLauncher(launcher) => CommandView::DeleteLauncher(launcher@),
        }
    }
}

impl DeepView for Command {
    type V = CommandView;

    open spec fn deep_view(&self) -> CommandView {
        self@
    }
}

/// The title that the header shows.
#[derive(Debug, PartialEq, Eq)]
pub enum HeaderTitle {
    /// The name of the application.
    App,
    /// A launcher with this title is being edited.
    Edit(String),
    /// A new launcher is being created.
    CreateNewWebApp,
    IconSelector,
    IconInstaller,
}

/// The mathematical model of a [`HeaderTitle`].
pub enum HeaderTitleView {
    App,
    Edit(Seq<char>),
    CreateNewWebApp,
    IconSelector,
    IconInstaller,
}

impl View for HeaderTitle {
    type V = HeaderTitleView;

    open spec fn view(&self) -> HeaderTitleView {
        match self {
            HeaderTitle::App => HeaderTitleView::App,
            HeaderTitle::Edit(title) => HeaderTitleView::Edit(title@),
            HeaderTitle::CreateNewWebApp => HeaderTitleView::CreateNewWebApp,
            HeaderTitle::IconSelector => HeaderTitleView::IconSelector,
            HeaderTitle::IconInstaller => HeaderTitleView::IconInstaller,
        }
    }
}

/// No task.
fn no_commands() -> (commands: Vec<Command>)
    ensures
        commands.deep_view() == Seq::<CommandView>::empty(),
{
    let commands: Vec<Command> = Vec::new();
    assert(commands.deep_view() =~= Seq::<CommandView>::empty());
    commands
}

/// Adds a task at the end of the list.
fn push_command(commands: &mut Vec<Command>, command: Command)
    ensures
        final(commands).deep_view() == old(commands).deep_view().push(command@),
{
    commands.push(command);
    assert(commands.deep_view() =~= old(commands).deep_view().push(command@));
}

/// The list of one task.
fn one_command(command: Command) -> (commands: Vec<Command>)
    ensures
        commands.deep_view() == seq![command@],
{
    let mut commands = no_commands();
    push_command(&mut commands, command);
    assert(commands.deep_view() =~= seq![command@]);
    commands
}

/// The list of two tasks.
fn two_commands(first: Command, second: Command) -> (commands: Vec<Command>)
    ensures
        commands.deep_view() == seq![first@, second@],
{
    let mut commands = no_commands();
    push_command(&mut commands, first);
    push_command(&mut commands, second);
    assert(commands.deep_view() =~= seq![first@, second@]);
    commands
}

/// The first of the chosen files that can be imported, with its file stem.
fn first_importable_file(paths: &Vec<Option<String>>) -> (found: Option<(String, String)>)
    ensures
        found.deep_view() == first_importable(paths.deep_view()),
{
    let ghost chosen = paths.deep_view();
    assert(chosen.skip(0) =~= chosen);
    let mut i: usize = 0;
    while i < paths.len()
        invariant
            i <= paths.len(),
            chosen == paths.deep_view(),
            first_importable(chosen) == first_importable(chosen.skip(i as int)),
        decreases paths.len() - i,
    {
        assert(chosen.skip(i as int)[0] == chosen[i as int]);
        assert(chosen.skip(i as int).drop_first() =~= chosen.skip(i + 1));
        match &paths[i] {
            Some(path) => {
                match file_stem(path.as_str()) {
                    Some(stem) => {
                        return Some((path.clone(), stem));
                    },
                    None => {},
                }
            },
            None => {},
        }
        i += 1;
    }
    None
}

/// The controller: the page that is shown, the stores behind the pages, and
/// what the shell has told it of the system.
#[derive(Debug)]
pub struct Window {
    main_window: Home,
    current_page: Pages,
    creator_window: AppCreator,
    icon_selector: IconPicker,
    dialog_open: bool,
    warning: Warning,
    browsers: Vec<Browser>,
    icon_pack_installed: bool,
}

impl View for Window {
    type V = WindowView;

    closed spec fn view(&self) -> WindowView {
        WindowView {
            current_page: self.current_page@,
            main_window: self.main_window@,
            creator_window: self.creator_window@,
            icon_selector: self.icon_selector@,
            dialog_open: self.dialog_open,
            warning: self.warning@,
            browsers: self.browsers.deep_view(),
            icon_pack_installed: self.icon_pack_installed,
        }
    }
}

impl Window {
    /// The controller as the application starts, and the tasks to start
    /// with. `icon_pack_installed` says whether the icon pack was found, and
    /// `browsers` lists the browsers that the system supports.
    pub fn init(icon_pack_installed: bool, browsers: Vec<Browser>) -> (started: (
        Window,
        Vec<Command>,
    ))
        ensures
            (started.0@, started.1.deep_view()) == WindowView::init(
                icon_pack_installed,
                browsers.deep_view(),
            ),
            started.0@.wf(),
    {
        let warning = Warning::new(Vec::new(), true);
        let icon_selector = IconPicker::default();
        let (page, commands) = if !icon_pack_installed {
            (Pages::IconInstallator(Installator::new()), one_command(Command::PrepareInstallScript))
        } else {
            (Pages::MainWindow, no_commands())
        };
        let window = Window {
            main_window: Home::new(),
            current_page: page,
            creator_window: AppCreator::new(),
            icon_selector,
            dialog_open: false,
            warning,
            browsers,
            icon_pack_installed,
        };
        (window, commands)
    }

    /// Handles one event: changes the state as the event asks, and returns
    /// the tasks that the shell has to perform, in order.
    pub fn update(&mut self, message: Message) -> (commands: Vec<Command>)
        ensures
            (final(self)@, commands.deep_view()) == old(self)@.step(message),
            final(self)@.wf(),
    {
        let commands = match message {
            Message::OpenHome => {
                self.current_page = Pages::MainWindow;
                no_commands()
            },
            Message::OpenCreator => {
                self.current_page = Pages::AppCreator;
                self.init_warning_box();
                no_commands()
            },
            Message::CloseCreator => {
                self.current_page = Pages::MainWindow;
                self.creator_window.edit_mode = false;
                no_commands()
            },
            Message::Creator(edit) => self.edit_form(edit),
            Message::Warning((action, message)) => {
                self.warning.apply(action, message);
                no_commands()
            },
            Message::OpenIconPicker => {
                self.current_page = Pages::IconPicker;
                no_commands()
            },
            Message::OpenIconPickerDialog => {
                if !self.dialog_open {
                    self.dialog_open = true;
                    one_command(Command::OpenDialog)
                } else {
                    no_commands()
                }
            },
            Message::DialogIconPicker => {
                if self.dialog_open {
                    one_command(Command::UpdateDialog)
                } else {
                    no_commands()
                }
            },
            Message::OpenFileResult(result) => self.file_chosen(result),
            Message::DoneCreate => self.done_create(),
            Message::DoneEdit => self.done_edit(),
            Message::Clicked(buttons) => match buttons {
                Buttons::Edit(launcher) => self.edit_launcher(launcher),
                Buttons::Delete(launcher) => one_command(Command::DeleteLauncher(launcher)),
                Buttons::SearchFavicon => self.search_favicon(),
            },
            Message::MyIcons => {
                let query = self.icon_selector.icon_searching().clone();
                let generation = self.icon_selector.begin_search(query.clone());
                one_command(Command::SearchLocalIcons { generation, query })
            },
            Message::PerformIconSearch => self.perform_icon_search(),
            Message::CustomIconsSearch(input) => {
                self.icon_selector.set_search_text(input);
                no_commands()
            },
            Message::FoundIcons(generation, paths) => self.found_icons(generation, paths),
            Message::PushIcon(generation, icon) => self.push_icon(generation, icon),
            Message::LoadingDone => self.loading_done(),
            Message::ChangeIcon(icon) => self.change_icon(icon),
            Message::SetIcon(icon) => {
                self.current_page = Pages::AppCreator;
                one_command(
                    Command::CacheIcon {
                        source: icon.path,
                        key: self.creator_window.app_title.clone(),
                        usage: IconUse::Restore,
                    },
                )
            },
            Message::SelectIcon(icon) => {
                self.creator_window.app_icon = icon.path.clone();
                self.icon_selector.select(icon);
                no_commands()
            },
            Message::IconCached(usage, saved) => self.icon_cached(usage, saved),
            Message::InstallScript(script) => self.install_script(script),
            Message::InstallCommand(status) => {
                self.install_command(status);
                no_commands()
            },
            Message::LauncherPersisted(done) => {
                if done {
                    self.current_page = Pages::MainWindow;
                } else {
                    self.warning.push_warn(WarnMessages::Info);
                }
                no_commands()
            },
            Message::LauncherDeleted(done) => {
                if !done {
                    self.warning.push_warn(WarnMessages::Info);
                }
                no_commands()
            },
        };
        proof {
            use_type_invariant(&self.warning);
            use_type_invariant(&self.icon_selector);
        }
        commands
    }

    /// Makes the warnings exactly the rules that the form breaks as it is
    /// now.
    fn init_warning_box(&mut self)
        ensures
            final(self)@ == (WindowView {
                warning: old(self)@.warning.remove_all_warns().push_all(
                    old(self)@.creator_window.violations(),
                ),
                ..old(self)@
            }),
    {
        self.warning.remove_all_warns();
        let broken = self.creator_window.validate();
        let ghost cleared = self.warning@;
        let mut i: usize = 0;
        while i < broken.len()
            invariant
                i <= broken.len(),
                self.warning@ == cleared.push_all(broken@.take(i as int)),
                self.current_page == old(self).current_page,
                self.main_window == old(self).main_window,
                self.creator_window == old(self).creator_window,
                self.icon_selector == old(self).icon_selector,
                self.dialog_open == old(self).dialog_open,
                self.browsers == old(self).browsers,
                self.icon_pack_installed == old(self).icon_pack_installed,
            decreases broken.len() - i,
        {
            self.warning.push_warn(broken[i]);
            assert(broken@.take(i + 1).drop_last() =~= broken@.take(i as int));
            i += 1;
        }
        assert(broken@.take(i as int) =~= broken@);
    }

    /// Applies an edit to the form and brings the warning of the edited
    /// field's rule up to date.
    fn edit_form(&mut self, edit: creator::Message) -> (commands: Vec<Command>)
        ensures
            (final(self)@, commands.deep_view()) == old(self)@.edit_form(edit),
    {
        match self.creator_window.update(edit, &self.browsers) {
            Some(rule) => {
                if self.creator_window.breaks(rule) {
                    self.warning.push_warn(rule);
                } else {
                    self.warning.remove_warn(rule);
                }
            },
            None => {},
        }
        no_commands()
    }

    /// Copies the file at `path` into the managed icon directory under the
    /// name `stem`, and starts a search that lists what the directory holds.
    pub fn import_icon(&mut self, path: String, stem: String) -> (commands: Vec<Command>)
        ensures
            (final(self)@, commands.deep_view()) == old(self)@.import_icon(path@, stem@),
            final(self)@.wf(),
    {
        let generation = self.icon_selector.begin_search(String::new());
        proof {
            use_type_invariant(&self.warning);
            use_type_invariant(&self.icon_selector);
        }
        two_commands(
            Command::CacheIcon { source: path, key: stem, usage: IconUse::Import },
            Command::SearchLocalIcons { generation, query: String::new() },
        )
    }

    /// Closes the file dialog and imports the first chosen file that can be
    /// imported.
    fn file_chosen(&mut self, result: DialogResult) -> (commands: Vec<Command>)
        ensures
            (final(self)@, commands.deep_view()) == old(self)@.file_chosen(result),
    {
        self.dialog_open = false;
        match result {
            DialogResult::Cancel => no_commands(),
            DialogResult::Open(paths) => match first_importable_file(&paths) {
                Some((path, stem)) => self.import_icon(path, stem),
                None => no_commands(),
            },
        }
    }

    /// Hands `entry` over to be persisted: the form's icon is copied into the
    /// managed icon directory under the title and the launcher is created.
    /// The two tasks are added to `commands`. The page stays until the
    /// outcome is known.
    fn create_valid_launcher(&mut self, entry: WebAppLauncher, commands: &mut Vec<Command>)
        ensures
            final(self)@ == (WindowView {
                creator_window: crate::pages::creator::AppCreatorView {
                    edit_mode: false,
                    ..old(self)@.creator_window
                },
                ..old(self)@
            }),
            final(commands).deep_view() == old(commands).deep_view() + seq![
                CommandView::CacheIcon {
                    source: old(self)@.creator_window.app_icon,
                    key: old(self)@.creator_window.app_title,
                    usage: IconUse::Persist,
                },
                CommandView::CreateLauncher(entry@),
            ],
    {
        push_command(
            commands,
            Command::CacheIcon {
                source: self.creator_window.app_icon.clone(),
                key: self.creator_window.app_title.clone(),
                usage: IconUse::Persist,
            },
        );
        push_command(commands, Command::CreateLauncher(entry));
        self.creator_window.edit_mode = false;
        assert(commands.deep_view() =~= old(commands).deep_view() + seq![
            CommandView::CacheIcon {
                source: old(self)@.creator_window.app_icon,
                key: old(self)@.creator_window.app_title,
                usage: IconUse::Persist,
            },
            CommandView::CreateLauncher(entry@),
        ]);
    }

    /// Submits the form under `codename`; the tasks of the submission are
    /// added to `commands`.
    fn submit(&mut self, codename: Option<String>, commands: &mut Vec<Command>)
        ensures
            final(self)@ == old(self)@.submit(codename.deep_view()).0,
            final(commands).deep_view() == old(commands).deep_view() + old(self)@.submit(
                codename.deep_view(),
            ).1,
    {
        let entry = self.creator_window.launcher(codename);
        let broken = self.creator_window.validate();
        if broken.len() == 0 {
            self.create_valid_launcher(entry, commands);
        } else {
            self.warning.push_warn(WarnMessages::AppIcon);
            self.creator_window.edit_mode = false;
            assert(commands.deep_view() =~= old(commands).deep_view() + Seq::<CommandView>::empty());
        }
    }

    /// Submits the form as a new launcher.
    fn done_create(&mut self) -> (commands: Vec<Command>)
        ensures
            (final(self)@, commands.deep_view()) == old(self)@.done_create(),
    {
        let mut commands = no_commands();
        self.submit(None, &mut commands);
        assert(commands.deep_view() =~= old(self)@.done_create().1);
        commands
    }

    /// Submits the form in place of the launcher opened for editing.
    fn done_edit(&mut self) -> (commands: Vec<Command>)
        ensures
            (final(self)@, commands.deep_view()) == old(self)@.done_edit(),
    {
        match &self.main_window.launcher {
            Some(launcher) => {
                let launcher = launcher.clone();
                let codename = launcher.codename.clone();
                let mut commands = one_command(Command::DeleteLauncher(launcher));
                self.submit(codename, &mut commands);
                commands
            },
            None => {
                self.creator_window.edit_mode = false;
                no_commands()
            },
        }
    }

    /// Ends loading and has the candidate that arrived first copied into the
    /// managed icon directory.
    fn loading_done(&mut self) -> (commands: Vec<Command>)
        ensures
            (final(self)@, commands.deep_view()) == old(self)@.loading_done(),
    {
        match self.icon_selector.finish_loading() {
            Some(first) => one_command(
                Command::CacheIcon {
                    source: first.path,
                    key: self.creator_window.app_title.clone(),
                    usage: IconUse::AutoPick,
                },
            ),
            None => no_commands(),
        }
    }

    /// Takes the path of a copied icon into the form, where the copy was made
    /// for the form.
    fn icon_cached(&mut self, usage: IconUse, saved: String) -> (commands: Vec<Command>)
        ensures
            (final(self)@, commands.deep_view()) == old(self)@.icon_cached(usage, saved@),
    {
        match usage {
            IconUse::AutoPick => {
                self.creator_window.app_icon = saved;
                no_commands()
            },
            IconUse::UserPick => {
                if self.icon_selector.selected().is_some() && saved.as_str().unicode_len() > 0 {
                    self.warning.remove_warn(WarnMessages::AppIcon);
                } else {
                    self.warning.push_warn(WarnMessages::AppIcon);
                }
                self.creator_window.app_icon = saved;
                no_commands()
            },
            IconUse::Restore => {
                self.creator_window.app_icon = saved.clone();
                one_command(Command::LoadSelectedIcon { path: saved })
            },
            IconUse::Import => no_commands(),
            IconUse::Persist => no_commands(),
        }
    }

    /// Starts a search for the icons of the site that the form's URL names.
    fn search_favicon(&mut self) -> (commands: Vec<Command>)
        ensures
            (final(self)@, commands.deep_view()) == old(self)@.search_favicon(),
    {
        if url_valid(self.creator_window.app_url.as_str()) {
            let name = get_icon_name_from_url(self.creator_window.app_url.as_str());
            let generation = self.icon_selector.begin_search(name.clone());
            one_command(
                Command::SearchIcons {
                    generation,
                    query: name,
                    url: self.creator_window.app_url.clone(),
                },
            )
        } else {
            no_commands()
        }
    }

    /// Opens `launcher` for editing.
    fn edit_launcher(&mut self, launcher: WebAppLauncher) -> (commands: Vec<Command>)
        ensures
            (final(self)@, commands.deep_view()) == old(self)@.edit_launcher(launcher@),
    {
        self.warning.remove_all_warns();
        match self.creator_window.load_from(&launcher, &self.browsers) {
            Ok(_) => {},
            Err(_) => {
                self.warning.push_warn(WarnMessages::AppBrowser);
            },
        }
        let path = launcher.icon.clone();
        self.main_window.edit(launcher);
        one_command(Command::LoadLauncherIcon { path })
    }

    /// Starts a search from the picker page.
    fn perform_icon_search(&mut self) -> (commands: Vec<Command>)
        ensures
            (final(self)@, commands.deep_view()) == old(self)@.perform_icon_search(),
    {
        let no_text = self.icon_selector.icon_searching().as_str().unicode_len() == 0;
        let no_url = self.creator_window.app_url.as_str().unicode_len() == 0;
        let name = if no_text && !no_url {
            get_icon_name_from_url(self.creator_window.app_url.as_str())
        } else {
            self.icon_selector.icon_searching().clone()
        };
        let generation = self.icon_selector.begin_search(name.clone());
        if !no_url || !no_text {
            one_command(
                Command::SearchIcons {
                    generation,
                    query: name,
                    url: self.creator_window.app_url.clone(),
                },
            )
        } else {
            no_commands()
        }
    }

    /// Takes the paths that a search has found and has each decoded, where
    /// the search is the current one.
    fn found_icons(&mut self, generation: u64, paths: Vec<String>) -> (commands: Vec<Command>)
        ensures
            (final(self)@, commands.deep_view()) == old(self)@.found_icons(
                generation,
                paths.deep_view(),
            ),
    {
        if !self.icon_selector.is_current(generation) {
            return no_commands();
        }
        self.icon_selector.clear();
        let mut commands = no_commands();
        let ghost found = paths.deep_view();
        let mut i: usize = 0;
        while i < paths.len()
            invariant
                i <= paths.len(),
                found == paths.deep_view(),
                commands.deep_view() == load_candidates(generation, found.take(i as int)),
            decreases paths.len() - i,
        {
            push_command(
                &mut commands,
                Command::LoadCandidate { generation, path: paths[i].clone() },
            );
            assert(load_candidates(generation, found.take(i + 1)) =~= load_candidates(
                generation,
                found.take(i as int),
            ).push(CommandView::LoadCandidate { generation, path: found[i as int] }));
            i += 1;
        }
        assert(found.take(i as int) =~= found);
        commands
    }

    /// Takes a decoded icon in as a candidate, where its search is the
    /// current one, and signals the end of loading.
    fn push_icon(&mut self, generation: u64, icon: Option<Icon>) -> (commands: Vec<Command>)
        ensures
            (final(self)@, commands.deep_view()) == old(self)@.push_icon(
                generation,
                icon.deep_view(),
            ),
    {
        if !self.icon_selector.is_current(generation) {
            return no_commands();
        }
        match icon {
            Some(icon) => {
                self.icon_selector.ingest(icon);
                self.warning.remove_warn(WarnMessages::AppIcon);
            },
            None => {},
        }
        one_command(Command::FinishLoading)
    }

    /// Makes the icon that the user picked on the picker page the selection.
    fn change_icon(&mut self, icon: Icon) -> (commands: Vec<Command>)
        ensures
            (final(self)@, commands.deep_view()) == old(self)@.change_icon(icon@),
    {
        match self.current_page {
            Pages::IconPicker => {
                let command = Command::CacheIcon {
                    source: icon.path.clone(),
                    key: self.creator_window.app_title.clone(),
                    usage: IconUse::UserPick,
                };
                self.icon_selector.select(icon);
                self.current_page = Pages::AppCreator;
                one_command(command)
            },
            _ => no_commands(),
        }
    }

    /// Has the install script run, unless the icon pack is installed.
    fn install_script(&mut self, script: String) -> (commands: Vec<Command>)
        ensures
            (final(self)@, commands.deep_view()) == old(self)@.install_script(script@),
    {
        if self.icon_pack_installed {
            return no_commands();
        }
        match &mut self.current_page {
            Pages::IconInstallator(installator) => {
                installator.start(script.clone());
            },
            _ => {},
        }
        one_command(Command::RunScript(script))
    }

    /// Records how the install script ended.
    fn install_command(&mut self, status: ExitStatus)
        ensures
            final(self)@ == old(self)@.install_command(status).0,
    {
        if status.success() {
            self.current_page = Pages::MainWindow;
            self.icon_pack_installed = true;
        } else {
            match &mut self.current_page {
                Pages::IconInstallator(installator) => {
                    installator.complete(false);
                },
                _ => {},
            }
        }
    }

    /// The title that the header shows on the current page.
    pub fn header_title(&self) -> (title: HeaderTitle)
        ensures
            title@ == match self@.current_page {
                PagesView::MainWindow => HeaderTitleView::App,
                PagesView::AppCreator => if self@.creator_window.edit_mode {
                    HeaderTitleView::Edit(self@.creator_window.app_title)
                } else {
                    HeaderTitleView::CreateNewWebApp
                },
                PagesView::IconPicker => HeaderTitleView::IconSelector,
                PagesView::IconInstallator(_) => HeaderTitleView::IconInstaller,
            },
    {
        match self.current_page {
            Pages::MainWindow => HeaderTitle::App,
            Pages::AppCreator => if self.creator_window.edit_mode {
                HeaderTitle::Edit(self.creator_window.app_title.clone())
            } else {
                HeaderTitle::CreateNewWebApp
            },
            Pages::IconPicker => HeaderTitle::IconSelector,
            Pages::IconInstallator(_) => HeaderTitle::IconInstaller,
        }
    }

    /// Replaces the list of the browsers that the system supports.
    pub fn set_browsers(&mut self, browsers: Vec<Browser>)
        ensures
            final(self)@ == (WindowView { browsers: browsers.deep_view(), ..old(self)@ }),
    {
        self.browsers = browsers;
    }

    /// The page that is shown.
    pub fn current_page(&self) -> (page: &Pages)
        ensures
            page@ == self@.current_page,
    {
        &self.current_page
    }

    /// The home page.
    pub fn main_window(&self) -> (home: &Home)
        ensures
            home@ == self@.main_window,
    {
        &self.main_window
    }

    /// The creator form.
    pub fn creator_window(&self) -> (form: &AppCreator)
        ensures
            form@ == self@.creator_window,
    {
        &self.creator_window
    }

    /// The icon candidate store.
    pub fn icon_selector(&self) -> (store: &IconPicker)
        ensures
            store@ == self@.icon_selector,
    {
        &self.icon_selector
    }

    /// The warning tracker.
    pub fn warning(&self) -> (tracker: &Warning)
        ensures
            tracker@ == self@.warning,
    {
        &self.warning
    }

    /// Whether the file dialog is open.
    pub fn dialog_open(&self) -> (open: bool)
        ensures
            open == self@.dialog_open,
    {
        self.dialog_open
    }

    /// The browsers that the system supports.
    pub fn browsers(&self) -> (browsers: &Vec<Browser>)
        ensures
            browsers.deep_view() == self@.browsers,
    {
        &self.browsers
    }

    /// Whether the icon pack is installed.
    pub fn icon_pack_installed(&self) -> (installed: bool)
        ensures
            installed == self@.icon_pack_installed,
    {
        self.icon_pack_installed
    }
}

} // verus!
