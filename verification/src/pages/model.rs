//! The controller as a state machine over mathematical values: what each
//! event does to the state, and which tasks it hands out.

use crate::common::{file_stem_of, url_host, url_valid_spec, BrowserView, LauncherView};
use crate::pages::creator::{rule_of, AppCreatorView};
use crate::pages::home_screen::HomeView;
use crate::pages::iconpicker::{IconPickerView, IconView};
use crate::pages::icons_installator::{ExitStatus, InstallStateView};
use crate::pages::{Buttons, CommandView, DialogResult, IconUse, Message, PagesView};
use crate::warning::{WarnAction, WarnMessages, WarningView};
use vstd::prelude::*;

verus! {

/// The path and the file stem of a chosen file that can be imported: one
/// whose path is text and has a file stem.
pub open spec fn importable(path: Option<Seq<char>>) -> Option<(Seq<char>, Seq<char>)> {
    match path {
        Some(path) => match file_stem_of(path) {
            Some(stem) => Some((path, stem)),
            None => None,
        },
        None => None,
    }
}

/// The first of the chosen files that can be imported, with its file stem.
pub open spec fn first_importable(paths: Seq<Option<Seq<char>>>) -> Option<(Seq<char>, Seq<char>)>
    decreases paths.len(),
{
    if paths.len() == 0 {
        None
    } else if importable(paths[0]).is_some() {
        importable(paths[0])
    } else {
        first_importable(paths.drop_first())
    }
}

/// One task for each path, in the order of the paths: decode the image there
/// for the search of this generation.
pub open spec fn load_candidates(generation: u64, paths: Seq<Seq<char>>) -> Seq<CommandView> {
    Seq::new(paths.len(), |i: int| CommandView::LoadCandidate { generation, path: paths[i] })
}

/// The mathematical model of a [`Window`](crate::pages::Window): the
/// state of the controller between two events.
pub struct WindowView {
    /// The page that is shown.
    pub current_page: PagesView,
    pub main_window: HomeView,
    pub creator_window: AppCreatorView,
    pub icon_selector: IconPickerView,
    /// Whether the file dialog is open.
    pub dialog_open: bool,
    pub warning: WarningView,
    /// The browsers that the system supports.
    pub browsers: Seq<BrowserView>,
    /// Whether the icon pack is installed.
    pub icon_pack_installed: bool,
}

impl WindowView {
    /// The warnings hold no entry twice and no two candidates have the same
    /// path.
    pub open spec fn wf(self) -> bool {
        self.warning.wf() && self.icon_selector.wf()
    }

    /// The state in which the application starts, and the tasks it starts
    /// with: where the icon pack is missing, the installator page is shown
    /// and the install script is asked for.
    pub open spec fn init(icon_pack_installed: bool, browsers: Seq<BrowserView>) -> (
        WindowView,
        Seq<CommandView>,
    ) {
        (
            WindowView {
                current_page: if icon_pack_installed {
                    PagesView::MainWindow
                } else {
                    PagesView::IconInstallator(InstallStateView::NotStarted)
                },
                main_window: HomeView { edit_mode: false, launcher: None },
                creator_window: AppCreatorView::empty(),
                icon_selector: IconPickerView {
                    icons: Seq::empty(),
                    selected: None,
                    loading: false,
                    icon_searching: Seq::empty(),
                    generation: 0,
                },
                dialog_open: false,
                warning: WarningView { messages: Seq::empty(), show: true },
                browsers,
                icon_pack_installed,
            },
            if icon_pack_installed {
                Seq::empty()
            } else {
                seq![CommandView::PrepareInstallScript]
            },
        )
    }

    /// The state as it is, and no task.
    pub open spec fn stay(self) -> (WindowView, Seq<CommandView>) {
        (self, Seq::empty())
    }

    /// The home page is shown.
    pub open spec fn open_home(self) -> (WindowView, Seq<CommandView>) {
        (WindowView { current_page: PagesView::MainWindow, ..self }, Seq::empty())
    }

    /// The creator page is shown, and the warnings are exactly the rules that
    /// the form breaks as it is now.
    pub open spec fn open_creator(self) -> (WindowView, Seq<CommandView>) {
        (
            WindowView {
                current_page: PagesView::AppCreator,
                warning: self.warning.remove_all_warns().push_all(
                    self.creator_window.violations(),
                ),
                ..self
            },
            Seq::empty(),
        )
    }

    /// The home page is shown and the form leaves edit mode.
    pub open spec fn close_creator(self) -> (WindowView, Seq<CommandView>) {
        (
            WindowView {
                current_page: PagesView::MainWindow,
                creator_window: AppCreatorView { edit_mode: false, ..self.creator_window },
                ..self
            },
            Seq::empty(),
        )
    }

    /// A field of the form is edited. The warning of the rule that the edit
    /// can change is there afterwards exactly if the form now breaks the rule.
    pub open spec fn edit_form(self, message: crate::pages::creator::Message) -> (
        WindowView,
        Seq<CommandView>,
    ) {
        let form = self.creator_window.update(message, self.browsers);
        (
            WindowView {
                creator_window: form,
                warning: match rule_of(message) {
                    Some(rule) => if form.breaks(rule) {
                        self.warning.push_warn(rule)
                    } else {
                        self.warning.remove_warn(rule)
                    },
                    None => self.warning,
                },
                ..self
            },
            Seq::empty(),
        )
    }

    /// A warning is added or removed.
    pub open spec fn warn(self, action: WarnAction, message: WarnMessages) -> (
        WindowView,
        Seq<CommandView>,
    ) {
        (WindowView { warning: self.warning.apply(action, message), ..self }, Seq::empty())
    }

    /// The icon picker page is shown.
    pub open spec fn open_icon_picker(self) -> (WindowView, Seq<CommandView>) {
        (WindowView { current_page: PagesView::IconPicker, ..self }, Seq::empty())
    }

    /// The file dialog is opened, unless it is open already.
    pub open spec fn open_dialog(self) -> (WindowView, Seq<CommandView>) {
        if self.dialog_open {
            self.stay()
        } else {
            (WindowView { dialog_open: true, ..self }, seq![CommandView::OpenDialog])
        }
    }

    /// An event of the file dialog is handed to the dialog, if it is open.
    pub open spec fn dialog_event(self) -> (WindowView, Seq<CommandView>) {
        if self.dialog_open {
            (self, seq![CommandView::UpdateDialog])
        } else {
            self.stay()
        }
    }

    /// The file at `path` is copied into the managed icon directory under its
    /// file stem, and a new search lists what the directory holds.
    pub open spec fn import_icon(self, path: Seq<char>, stem: Seq<char>) -> (
        WindowView,
        Seq<CommandView>,
    ) {
        let store = self.icon_selector.begin_search(Seq::empty());
        (
            WindowView { icon_selector: store, ..self },
            seq![
                CommandView::CacheIcon { source: path, key: stem, usage: IconUse::Import },
                CommandView::SearchLocalIcons { generation: store.generation, query: Seq::empty() },
            ],
        )
    }

    /// The file dialog has closed. Where files were chosen, the first that
    /// can be imported is imported.
    pub open spec fn file_chosen(self, result: DialogResult) -> (WindowView, Seq<CommandView>) {
        let closed = WindowView { dialog_open: false, ..self };
        match result {
            DialogResult::Cancel => closed.stay(),
            DialogResult::Open(paths) => match first_importable(paths.deep_view()) {
                Some((path, stem)) => closed.import_icon(path, stem),
                None => closed.stay(),
            },
        }
    }

    /// The form is submitted under `codename`. Where the form breaks no rule,
    /// its icon is copied into the managed icon directory under the title
    /// and the launcher is handed over to be persisted. Otherwise the icon
    /// warning is added. The page stays either way: the home page is shown
    /// only once the launcher is known to be persisted. The form leaves edit
    /// mode either way.
    pub open spec fn submit(self, codename: Option<Seq<char>>) -> (WindowView, Seq<CommandView>) {
        let form = AppCreatorView { edit_mode: false, ..self.creator_window };
        if self.creator_window.violations().len() == 0 {
            (
                WindowView { creator_window: form, ..self },
                seq![
                    CommandView::CacheIcon {
                        source: self.creator_window.app_icon,
                        key: self.creator_window.app_title,
                        usage: IconUse::Persist,
                    },
                    CommandView::CreateLauncher(self.creator_window.launcher(codename)),
                ],
            )
        } else {
            (
                WindowView {
                    creator_window: form,
                    warning: self.warning.push_warn(WarnMessages::AppIcon),
                    ..self
                },
                Seq::empty(),
            )
        }
    }

    /// The launcher was persisted, or could not be. After a success the home
    /// page is shown. After a failure the page stays and the tracker reports
    /// that the requirements are not met.
    pub open spec fn launcher_persisted(self, done: bool) -> (WindowView, Seq<CommandView>) {
        if done {
            (WindowView { current_page: PagesView::MainWindow, ..self }, Seq::empty())
        } else {
            (
                WindowView { warning: self.warning.push_warn(WarnMessages::Info), ..self },
                Seq::empty(),
            )
        }
    }

    /// The persisted launcher was deleted, or could not be. A failure is
    /// reported in the tracker; nothing else changes.
    pub open spec fn launcher_deleted(self, done: bool) -> (WindowView, Seq<CommandView>) {
        if done {
            self.stay()
        } else {
            (
                WindowView { warning: self.warning.push_warn(WarnMessages::Info), ..self },
                Seq::empty(),
            )
        }
    }

    /// The form is submitted as a new launcher, which has no codename yet.
    pub open spec fn done_create(self) -> (WindowView, Seq<CommandView>) {
        self.submit(None)
    }

    /// The form is submitted in place of the launcher opened for editing:
    /// that launcher is deleted, and the form is submitted under its
    /// codename. Where no launcher was opened for editing, the form only
    /// leaves edit mode.
    pub open spec fn done_edit(self) -> (WindowView, Seq<CommandView>) {
        match self.main_window.launcher {
            Some(launcher) => {
                let (next, commands) = self.submit(launcher.codename);
                (next, seq![CommandView::DeleteLauncher(launcher)] + commands)
            },
            None => (
                WindowView {
                    creator_window: AppCreatorView { edit_mode: false, ..self.creator_window },
                    ..self
                },
                Seq::empty(),
            ),
        }
    }

    /// Loading ends. Where there are candidates, the one that arrived first
    /// becomes the selection and is copied into the managed icon directory
    /// under the title.
    pub open spec fn loading_done(self) -> (WindowView, Seq<CommandView>) {
        (
            WindowView { icon_selector: self.icon_selector.finish_loading(), ..self },
            match self.icon_selector.first() {
                Some(first) => seq![
                    CommandView::CacheIcon {
                        source: first.path,
                        key: self.creator_window.app_title,
                        usage: IconUse::AutoPick,
                    },
                ],
                None => Seq::empty(),
            },
        )
    }

    /// An icon was copied to `saved`. Where the copy was made for the form,
    /// `saved` becomes the form's icon. For a pick of the user the icon
    /// warning is removed if an icon is now set, and added if none is. For
    /// the launcher opened for editing the copy is decoded for display.
    pub open spec fn icon_cached(self, usage: IconUse, saved: Seq<char>) -> (
        WindowView,
        Seq<CommandView>,
    ) {
        let form = AppCreatorView { app_icon: saved, ..self.creator_window };
        match usage {
            IconUse::AutoPick => (WindowView { creator_window: form, ..self }, Seq::empty()),
            IconUse::UserPick => (
                WindowView {
                    creator_window: form,
                    warning: if self.icon_selector.selected.is_some() && saved.len() > 0 {
                        self.warning.remove_warn(WarnMessages::AppIcon)
                    } else {
                        self.warning.push_warn(WarnMessages::AppIcon)
                    },
                    ..self
                },
                Seq::empty(),
            ),
            IconUse::Restore => (
                WindowView { creator_window: form, ..self },
                seq![CommandView::LoadSelectedIcon { path: saved }],
            ),
            IconUse::Import => self.stay(),
            IconUse::Persist => self.stay(),
        }
    }

    /// Icons are searched for the site of the form's URL, under the name of
    /// its host, provided that the URL is accepted.
    pub open spec fn search_favicon(self) -> (WindowView, Seq<CommandView>) {
        let url = self.creator_window.app_url;
        if url_valid_spec(url) {
            let store = self.icon_selector.begin_search(url_host(url));
            (
                WindowView { icon_selector: store, ..self },
                seq![
                    CommandView::SearchIcons {
                        generation: store.generation,
                        query: url_host(url),
                        url,
                    },
                ],
            )
        } else {
            self.stay()
        }
    }

    /// `launcher` is opened for editing: it is loaded into the form, the
    /// warnings are cleared, and its icon is decoded for display. Where its
    /// browser is no longer supported, the browser warning is raised.
    pub open spec fn edit_launcher(self, launcher: LauncherView) -> (WindowView, Seq<CommandView>) {
        let form = self.creator_window.load_from(launcher, self.browsers);
        let cleared = self.warning.remove_all_warns();
        (
            WindowView {
                main_window: self.main_window.edit(launcher),
                creator_window: form,
                warning: if form.selected_browser.is_some() {
                    cleared
                } else {
                    cleared.push_warn(WarnMessages::AppBrowser)
                },
                ..self
            },
            seq![CommandView::LoadLauncherIcon { path: launcher.icon }],
        )
    }

    /// `launcher` is deleted; the state stays as it is.
    pub open spec fn delete_launcher(self, launcher: LauncherView) -> (
        WindowView,
        Seq<CommandView>,
    ) {
        (self, seq![CommandView::DeleteLauncher(launcher)])
    }

    /// The managed icon directory is searched for the text of the picker.
    pub open spec fn my_icons(self) -> (WindowView, Seq<CommandView>) {
        let query = self.icon_selector.icon_searching;
        let store = self.icon_selector.begin_search(query);
        (
            WindowView { icon_selector: store, ..self },
            seq![CommandView::SearchLocalIcons { generation: store.generation, query }],
        )
    }

    /// The name that a search from the picker page looks for: the text of the
    /// picker, or, where there is none but there is a URL, the host of the
    /// URL.
    pub open spec fn search_query(self) -> Seq<char> {
        if self.icon_selector.icon_searching.len() == 0 && self.creator_window.app_url.len() > 0 {
            url_host(self.creator_window.app_url)
        } else {
            self.icon_selector.icon_searching
        }
    }

    /// A search starts from the picker page. The search task is handed out
    /// unless both the text of the picker and the URL are empty.
    pub open spec fn perform_icon_search(self) -> (WindowView, Seq<CommandView>) {
        let store = self.icon_selector.begin_search(self.search_query());
        (
            WindowView { icon_selector: store, ..self },
            if self.creator_window.app_url.len() > 0 || self.icon_selector.icon_searching.len()
                > 0 {
                seq![
                    CommandView::SearchIcons {
                        generation: store.generation,
                        query: self.search_query(),
                        url: self.creator_window.app_url,
                    },
                ]
            } else {
                Seq::empty()
            },
        )
    }

    /// The text of the picker is replaced.
    pub open spec fn custom_icons_search(self, input: Seq<char>) -> (WindowView, Seq<CommandView>) {
        (
            WindowView { icon_selector: self.icon_selector.set_search_text(input), ..self },
            Seq::empty(),
        )
    }

    /// A search has found `paths`. Where the search is the current one, the
    /// candidates are dropped and each path is decoded. The result of any
    /// other search is dropped.
    pub open spec fn found_icons(self, generation: u64, paths: Seq<Seq<char>>) -> (
        WindowView,
        Seq<CommandView>,
    ) {
        if self.icon_selector.is_current(generation) {
            (
                WindowView { icon_selector: self.icon_selector.clear(), ..self },
                load_candidates(generation, paths),
            )
        } else {
            self.stay()
        }
    }

    /// An image of a search was decoded, or could not be. Where the search is
    /// the current one, the icon joins the candidates and the icon warning is
    /// removed, and, with or without an icon, the end of loading is
    /// signalled. The result of any other search is dropped.
    pub open spec fn push_icon(self, generation: u64, icon: Option<IconView>) -> (
        WindowView,
        Seq<CommandView>,
    ) {
        if self.icon_selector.is_current(generation) {
            (
                match icon {
                    Some(icon) => WindowView {
                        icon_selector: self.icon_selector.ingest(icon),
                        warning: self.warning.remove_warn(WarnMessages::AppIcon),
                        ..self
                    },
                    None => self,
                },
                seq![CommandView::FinishLoading],
            )
        } else {
            self.stay()
        }
    }

    /// The user picks `icon` on the icon picker page: it becomes the
    /// selection, it is copied into the managed icon directory under the
    /// title, and the creator page is shown. On any other page nothing
    /// happens.
    pub open spec fn change_icon(self, icon: IconView) -> (WindowView, Seq<CommandView>) {
        if self.current_page == PagesView::IconPicker {
            (
                WindowView {
                    current_page: PagesView::AppCreator,
                    icon_selector: self.icon_selector.select(icon),
                    ..self
                },
                seq![
                    CommandView::CacheIcon {
                        source: icon.path,
                        key: self.creator_window.app_title,
                        usage: IconUse::UserPick,
                    },
                ],
            )
        } else {
            self.stay()
        }
    }

    /// The icon of the launcher opened for editing was decoded: it is copied
    /// into the managed icon directory under the title, and the creator page
    /// is shown.
    pub open spec fn set_icon(self, icon: IconView) -> (WindowView, Seq<CommandView>) {
        (
            WindowView { current_page: PagesView::AppCreator, ..self },
            seq![
                CommandView::CacheIcon {
                    source: icon.path,
                    key: self.creator_window.app_title,
                    usage: IconUse::Restore,
                },
            ],
        )
    }

    /// `icon` becomes the selection and its path the form's icon.
    pub open spec fn select_icon(self, icon: IconView) -> (WindowView, Seq<CommandView>) {
        (
            WindowView {
                icon_selector: self.icon_selector.select(icon),
                creator_window: AppCreatorView { app_icon: icon.path, ..self.creator_window },
                ..self
            },
            Seq::empty(),
        )
    }

    /// The page after the installator, if it is shown, went through `change`.
    pub open spec fn installator_page(
        self,
        change: spec_fn(InstallStateView) -> InstallStateView,
    ) -> PagesView {
        match self.current_page {
            PagesView::IconInstallator(state) => PagesView::IconInstallator(change(state)),
            other => other,
        }
    }

    /// The install script is ready: it is run, unless the icon pack is
    /// installed already.
    pub open spec fn install_script(self, script: Seq<char>) -> (WindowView, Seq<CommandView>) {
        if self.icon_pack_installed {
            self.stay()
        } else {
            (
                WindowView {
                    current_page: self.installator_page(
                        |state: InstallStateView| state.start(script),
                    ),
                    ..self
                },
                seq![CommandView::RunScript(script)],
            )
        }
    }

    /// The install script has ended. After a success the icon pack is
    /// installed and the home page is shown. After a failure the page stays.
    pub open spec fn install_command(self, status: ExitStatus) -> (WindowView, Seq<CommandView>) {
        if status.spec_success() {
            (
                WindowView {
                    current_page: PagesView::MainWindow,
                    icon_pack_installed: true,
                    ..self
                },
                Seq::empty(),
            )
        } else {
            (
                WindowView {
                    current_page: self.installator_page(
                        |state: InstallStateView| state.complete(false),
                    ),
                    ..self
                },
                Seq::empty(),
            )
        }
    }

    /// What the event `message` does: the state after it, and the tasks that
    /// it hands out, in the order in which they are to be performed.
    pub open spec fn step(self, message: Message) -> (WindowView, Seq<CommandView>) {
        match message {
            Message::OpenHome => self.open_home(),
            Message::OpenCreator => self.open_creator(),
            Message::CloseCreator => self.close_creator(),
            Message::OpenIconPicker => self.open_icon_picker(),
            Message::OpenIconPickerDialog => self.open_dialog(),
            Message::DialogIconPicker => self.dialog_event(),
            Message::OpenFileResult(result) => self.file_chosen(result),
            Message::Creator(edit) => self.edit_form(edit),
            Message::DoneEdit => self.done_edit(),
            Message::DoneCreate => self.done_create(),
            Message::LoadingDone => self.loading_done(),
            Message::Clicked(Buttons::SearchFavicon) => self.search_favicon(),
            Message::Clicked(Buttons::Edit(launcher)) => self.edit_launcher(launcher@),
            Message::Clicked(Buttons::Delete(launcher)) => self.delete_launcher(launcher@),
            Message::CustomIconsSearch(input) => self.custom_icons_search(input@),
            Message::ChangeIcon(icon) => self.change_icon(icon@),
            Message::MyIcons => self.my_icons(),
            Message::PerformIconSearch => self.perform_icon_search(),
            Message::FoundIcons(generation, paths) => self.found_icons(
                generation,
                paths.deep_view(),
            ),
            Message::PushIcon(generation, icon) => self.push_icon(generation, icon.deep_view()),
            Message::SetIcon(icon) => self.set_icon(icon@),
            Message::SelectIcon(icon) => self.select_icon(icon@),
            Message::IconCached(usage, saved) => self.icon_cached(usage, saved@),
            Message::Warning((action, message)) => self.warn(action, message),
            Message::InstallScript(script) => self.install_script(script@),
            Message::InstallCommand(status) => self.install_command(status),
            Message::LauncherPersisted(done) => self.launcher_persisted(done),
            Message::LauncherDeleted(done) => self.launcher_deleted(done),
        }
    }
}

/// Every event keeps the state well formed: the warnings never hold an entry
/// twice, and the candidates never hold a path twice.
pub proof fn lemma_step_keeps_state_well_formed(state: WindowView, message: Message)
    requires
        state.wf(),
    ensures
        state.step(message).0.wf(),
{
    let next = state.step(message).0;
    match message {
        Message::OpenCreator => {
            crate::warning::lemma_adds_never_duplicate(
                state.warning.remove_all_warns(),
                state.creator_window.violations(),
            );
        },
        Message::Creator(edit) => {
            match rule_of(edit) {
                Some(rule) => {
                    crate::warning::lemma_push_warn_keeps_entries_unique(state.warning, rule);
                    crate::warning::lemma_remove_warn_removes(state.warning, rule);
                },
                None => {},
            }
        },
        Message::Warning((action, entry)) => {
            crate::warning::lemma_push_warn_keeps_entries_unique(state.warning, entry);
            crate::warning::lemma_remove_warn_removes(state.warning, entry);
        },
        Message::DoneEdit => {
            crate::warning::lemma_push_warn_keeps_entries_unique(
                state.warning,
                WarnMessages::AppIcon,
            );
        },
        Message::DoneCreate => {
            crate::warning::lemma_push_warn_keeps_entries_unique(
                state.warning,
                WarnMessages::AppIcon,
            );
        },
        Message::Clicked(Buttons::Edit(launcher)) => {
            crate::warning::lemma_push_warn_keeps_entries_unique(
                state.warning.remove_all_warns(),
                WarnMessages::AppBrowser,
            );
        },
        Message::PushIcon(generation, icon) => {
            crate::warning::lemma_remove_warn_removes(state.warning, WarnMessages::AppIcon);
            match icon {
                Some(icon) => {
                    crate::pages::iconpicker::lemma_ingest_keeps_paths_unique(
                        state.icon_selector,
                        icon@,
                    );
                },
                None => {},
            }
        },
        Message::IconCached(usage, saved) => {
            crate::warning::lemma_push_warn_keeps_entries_unique(
                state.warning,
                WarnMessages::AppIcon,
            );
            crate::warning::lemma_remove_warn_removes(state.warning, WarnMessages::AppIcon);
        },
        Message::LauncherPersisted(done) => {
            crate::warning::lemma_push_warn_keeps_entries_unique(state.warning, WarnMessages::Info);
        },
        Message::LauncherDeleted(done) => {
            crate::warning::lemma_push_warn_keeps_entries_unique(state.warning, WarnMessages::Info);
        },
        _ => {},
    }
}

/// Entering the creator page leaves exactly the warnings of the rules that
/// the form breaks: a warning is there if and only if its rule is broken.
pub proof fn lemma_open_creator_shows_broken_rules(state: WindowView)
    ensures
        state.open_creator().0.warning.messages == state.creator_window.violations(),
        forall|rule: WarnMessages|
            state.open_creator().0.warning.messages.contains(rule)
                <==> state.creator_window.breaks(rule),
{
    let form = state.creator_window;
    let cleared = state.warning.remove_all_warns();
    crate::pages::creator::lemma_violations_are_the_broken_rules(form);
    lemma_push_all_of_distinct(cleared, form.violations());
}

/// Adding entries that are all different to an empty tracker leaves exactly
/// these entries, in their order.
proof fn lemma_push_all_of_distinct(tracker: WarningView, entries: Seq<WarnMessages>)
    requires
        tracker.messages.len() == 0,
        entries.no_duplicates(),
    ensures
        tracker.push_all(entries).messages == entries,
    decreases entries.len(),
{
    if entries.len() > 0 {
        lemma_push_all_of_distinct(tracker, entries.drop_last());
        assert(entries.drop_last().push(entries.last()) =~= entries);
        assert(!entries.drop_last().contains(entries.last()));
    } else {
        assert(tracker.messages =~= entries);
    }
}

/// A form that breaks a rule cannot be submitted: nothing is persisted and
/// the icon warning is shown. A form that breaks no rule is handed over to be
/// persisted as the launcher that it describes. The page stays in both
/// cases.
pub proof fn lemma_submit_goes_by_the_rules(state: WindowView, codename: Option<Seq<char>>)
    ensures
        state.creator_window.violations().len() > 0 ==> {
            &&& state.submit(codename).0.current_page == state.current_page
            &&& state.submit(codename).1.len() == 0
            &&& state.submit(codename).0.warning.messages.contains(WarnMessages::AppIcon)
        },
        state.creator_window.violations().len() == 0 ==> {
            &&& state.submit(codename).0.current_page == state.current_page
            &&& state.submit(codename).0.warning == state.warning
            &&& state.submit(codename).1.len() == 2
            &&& state.submit(codename).1[1] == CommandView::CreateLauncher(
                state.creator_window.launcher(codename),
            )
            &&& state.creator_window.launcher(codename).is_valid()
        },
{
    crate::warning::lemma_push_warn_keeps_entries_unique(
        WarningView { messages: Seq::empty(), ..state.warning },
        WarnMessages::AppIcon,
    );
    if !state.warning.messages.contains(WarnMessages::AppIcon) {
        let after = state.warning.messages.push(WarnMessages::AppIcon);
        assert(after[after.len() - 1] == WarnMessages::AppIcon);
    }
    crate::pages::creator::lemma_violations_are_the_broken_rules(state.creator_window);
}

/// Opening a launcher for editing and submitting the form at once deletes
/// the launcher and, where it can be persisted, hands it over to be created
/// again as it was, under the codename it had. This needs the launcher's
/// browser to be supported still.
pub proof fn lemma_edit_then_submit_recreates_launcher(state: WindowView, launcher: LauncherView)
    requires
        crate::common::browser_position(state.browsers, launcher.web_browser.name).is_some(),
    ensures
        ({
            let (edited, _) = state.edit_launcher(launcher);
            let (done, commands) = edited.done_edit();
            &&& commands[0] == CommandView::DeleteLauncher(launcher)
            &&& launcher.is_valid() ==> {
                &&& commands.len() == 3
                &&& commands[2] == CommandView::CreateLauncher(launcher)
                &&& done.current_page == edited.current_page
            }
            &&& !launcher.is_valid() ==> commands.len() == 1
        }),
{
    let (edited, _) = state.edit_launcher(launcher);
    crate::pages::creator::lemma_edit_round_trip(state.creator_window, launcher, state.browsers);
    crate::pages::creator::lemma_violations_are_the_broken_rules(edited.creator_window);
    assert(edited.creator_window.launcher(launcher.codename) == launcher);
}

/// The outcome of persisting decides the page: the home page is shown after
/// a success and only then, and a failure is reported in the tracker while
/// the page, the form and everything else stay as they were.
pub proof fn lemma_persist_outcome_decides_page(state: WindowView)
    ensures
        state.launcher_persisted(true).0.current_page == PagesView::MainWindow,
        state.launcher_persisted(true).0.warning == state.warning,
        state.launcher_persisted(false).0.current_page == state.current_page,
        state.launcher_persisted(false).0.creator_window == state.creator_window,
        state.launcher_persisted(false).0.warning.messages.contains(WarnMessages::Info),
        state.launcher_persisted(true).1.len() == 0,
        state.launcher_persisted(false).1.len() == 0,
{
    if !state.warning.messages.contains(WarnMessages::Info) {
        let after = state.warning.messages.push(WarnMessages::Info);
        assert(after[after.len() - 1] == WarnMessages::Info);
    }
}

/// A launcher that could not be deleted is reported in the tracker, and the
/// page stays; a launcher that was deleted changes nothing.
pub proof fn lemma_delete_failure_is_reported(state: WindowView)
    ensures
        state.launcher_deleted(true) == state.stay(),
        state.launcher_deleted(false).0.current_page == state.current_page,
        state.launcher_deleted(false).0.warning.messages.contains(WarnMessages::Info),
{
    if !state.warning.messages.contains(WarnMessages::Info) {
        let after = state.warning.messages.push(WarnMessages::Info);
        assert(after[after.len() - 1] == WarnMessages::Info);
    }
}

/// What a search other than the current one reports is dropped: neither the
/// paths it found nor an icon decoded for it changes the state or hands out
/// a task.
pub proof fn lemma_stale_results_are_dropped(
    state: WindowView,
    generation: u64,
    paths: Seq<Seq<char>>,
    icon: Option<IconView>,
)
    requires
        !state.icon_selector.is_current(generation),
    ensures
        state.found_icons(generation, paths) == state.stay(),
        state.push_icon(generation, icon) == state.stay(),
{
}

/// An event changes the candidates only in three ways: a search starts and
/// they are dropped, the paths of the current search arrive and they are
/// dropped, or an icon of the current search is taken in. So the store never
/// holds a candidate of a search other than the most recently started one.
pub proof fn lemma_candidates_come_from_current_search(state: WindowView, message: Message)
    ensures
        ({
            let before = state.icon_selector;
            let after = state.step(message).0.icon_selector;
            ||| after.icons == before.icons && after.generation == before.generation
            ||| after.icons.len() == 0
            ||| message matches Message::PushIcon(generation, Some(icon)) && before.is_current(
                generation,
            ) && after.icons == before.icons.push(icon@) && after.generation
                == before.generation
        }),
{
}

/// The icons decoded for the current search, taken in one after the other
/// and each followed by the end of loading, leave the one that arrived first
/// selected, whatever arrived after it.
pub open spec fn after_arrivals(state: WindowView, generation: u64, arrivals: Seq<IconView>) -> WindowView
    decreases arrivals.len(),
{
    if arrivals.len() == 0 {
        state
    } else {
        after_arrivals(state, generation, arrivals.drop_last()).push_icon(
            generation,
            Some(arrivals.last()),
        ).0.loading_done().0
    }
}

/// The candidate that arrives first in a search is the one selected after
/// loading is done, however many candidates arrive after it.
pub proof fn lemma_first_arrival_wins(state: WindowView, arrivals: Seq<IconView>)
    requires
        state.icon_selector.icons.len() == 0,
        arrivals.len() > 0,
    ensures
        after_arrivals(state, state.icon_selector.generation, arrivals).icon_selector.selected
            == Some(arrivals[0]),
        after_arrivals(state, state.icon_selector.generation, arrivals).icon_selector.icons[0]
            == arrivals[0],
        after_arrivals(state, state.icon_selector.generation, arrivals).icon_selector.generation
            == state.icon_selector.generation,
    decreases arrivals.len(),
{
    let generation = state.icon_selector.generation;
    if arrivals.len() == 1 {
        assert(arrivals.drop_last().len() == 0);
        assert(after_arrivals(state, generation, arrivals.drop_last()) == state);
        assert(!state.icon_selector.has_path(arrivals[0].path));
    } else {
        lemma_first_arrival_wins(state, arrivals.drop_last());
        assert(arrivals.drop_last()[0] == arrivals[0]);
    }
}

/// The script's end decides the page: after a success the home page is
/// shown, after a failure the installator page stays.
pub proof fn lemma_install_result_decides_page(state: WindowView, status: ExitStatus)
    ensures
        status.spec_success() ==> state.install_command(status).0.current_page
            == PagesView::MainWindow,
        !status.spec_success() && state.current_page is IconInstallator ==> state.install_command(
            status,
        ).0.current_page == PagesView::IconInstallator(InstallStateView::Completed(false)),
        !status.spec_success() && !(state.current_page is IconInstallator)
            ==> state.install_command(status).0.current_page == state.current_page,
{
}

/// At most one file dialog is open: asking for the dialog while it is open
/// changes nothing and hands out no task.
pub proof fn lemma_dialog_opens_once(state: WindowView)
    ensures
        state.open_dialog().0.dialog_open,
        state.open_dialog().0.open_dialog() == state.open_dialog().0.stay(),
{
}

} // verus!
