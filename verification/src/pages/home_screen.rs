//! The home page: the list of launchers, and the launcher that the user has
//! opened for editing.

use crate::common::{LauncherView, WebAppLauncher};
use vstd::prelude::*;

verus! {

/// The mathematical model of a [`Home`].
pub struct HomeView {
    pub edit_mode: bool,
    pub launcher: Option<LauncherView>,
}

impl HomeView {
    /// The home page with `launcher` opened for editing.
    pub open spec fn edit(self, launcher: LauncherView) -> HomeView {
        HomeView { edit_mode: true, launcher: Some(launcher) }
    }
}

/// What the home page remembers between events.
#[derive(Debug)]
pub struct Home {
    pub edit_mode: bool,
    pub launcher: Option<WebAppLauncher>,
}

impl View for Home {
    type V = HomeView;

    open spec fn view(&self) -> HomeView {
        HomeView { edit_mode: self.edit_mode, launcher: self.launcher.deep_view() }
    }
}

impl Home {
    /// A home page on which no launcher is being edited.
    pub fn new() -> (home: Self)
        ensures
            home@ == (HomeView { edit_mode: false, launcher: None }),
    {
        Home { edit_mode: false, launcher: None }
    }

    /// Remembers `launcher` as the one being edited.
    pub fn edit(&mut self, launcher: WebAppLauncher)
        ensures
            final(self)@ == old(self)@.edit(launcher@),
    {
        self.edit_mode = true;
        self.launcher = Some(launcher);
    }
}

} // verus!
