//! The main layout: the view switcher (pull requests or activity), the
//! settings control at the top right, and the refresh spinner. What the
//! layout shows follows the current path.

use vstd::prelude::*;

use crate::text::owned;

verus! {

broadcast use vstd::string::group_string_axioms;

/// The state of the main chrome.
#[derive(Debug)]
pub struct Chrome {
    pub selected: String,
    pub previous_selected: String,
    pub refreshing: bool,
    pub on_settings: bool,
}

/// The value of the chrome, strings as characters.
pub struct ChromeView {
    pub selected: Seq<char>,
    pub previous_selected: Seq<char>,
    pub refreshing: bool,
    pub on_settings: bool,
}

impl View for Chrome {
    type V = ChromeView;

    open spec fn view(&self) -> ChromeView {
        ChromeView {
            selected: self.selected@,
            previous_selected: self.previous_selected@,
            refreshing: self.refreshing,
            on_settings: self.on_settings,
        }
    }
}

/// The chrome after the layout saw `selected` and whether the settings page
/// is on: the settings flag follows; on the settings page nothing else
/// changes; coming back from it, both selections jump to `selected` (no
/// slide); otherwise a new selection slides from the old one.
pub open spec fn synced(c: ChromeView, selected: Seq<char>, on_settings: bool) -> ChromeView {
    if on_settings {
        ChromeView { on_settings: true, ..c }
    } else if c.on_settings {
        ChromeView { selected, previous_selected: selected, on_settings: false, ..c }
    } else if c.selected != selected {
        ChromeView { selected, previous_selected: c.selected, ..c }
    } else {
        c
    }
}

impl Chrome {
    /// The pull request view selected, not refreshing, not on settings.
    pub fn new() -> (c: Self)
        ensures
            c@ == (ChromeView {
                selected: "prs"@,
                previous_selected: "prs"@,
                refreshing: false,
                on_settings: false,
            }),
    {
        Chrome { selected: owned("prs"), previous_selected: owned("prs"), refreshing: false, on_settings: false }
    }

    /// Shows or hides the refresh spinner; says whether anything changed (the
    /// view is redrawn only then).
    pub fn set_refreshing(&mut self, refreshing: bool) -> (changed: bool)
        ensures
            final(self)@ == (ChromeView { refreshing, ..old(self)@ }),
            changed == (old(self)@.refreshing != refreshing),
    {
        if self.refreshing != refreshing {
            self.refreshing = refreshing;
            true
        } else {
            false
        }
    }

    /// Follows the current view (see `synced`); says whether the settings
    /// flag changed (the view is redrawn then).
    pub fn sync_view(&mut self, selected: &str, on_settings: bool) -> (changed: bool)
        ensures
            final(self)@ == synced(old(self)@, selected@, on_settings),
            changed == (old(self)@.on_settings != on_settings),
    {
        let leaving_settings = self.on_settings && !on_settings;
        let changed = self.on_settings != on_settings;
        if changed {
            self.on_settings = on_settings;
        }
        if on_settings {
            return changed;
        }
        if leaving_settings {
            self.selected = owned(selected);
            self.previous_selected = owned(selected);
            return changed;
        }
        let s = owned(selected);
        if !(self.selected == s) {
            let mut old = s;
            std::mem::swap(&mut old, &mut self.selected);
            self.previous_selected = old;
        }
        changed
    }

    /// What the settings control at the top right does: it closes the
    /// settings page (back) when it is on, else opens it.
    pub fn settings_click(&self) -> (c: SettingsClick)
        ensures
            self.on_settings ==> c == SettingsClick::Back,
            !self.on_settings ==> c == SettingsClick::OpenSettings,
    {
        if self.on_settings {
            SettingsClick::Back
        } else {
            SettingsClick::OpenSettings
        }
    }

    /// The element id of the settings control.
    pub fn control_id(&self) -> (id: &'static str)
        ensures
            self.on_settings ==> id@ == "close-settings"@,
            !self.on_settings ==> id@ == "open-settings"@,
    {
        if self.on_settings {
            "close-settings"
        } else {
            "open-settings"
        }
    }
}

/// What a click on the settings control does.
#[derive(Debug, Clone, Copy, PartialEq, Eq, Structural)]
pub enum SettingsClick {
    Back,
    OpenSettings,
}

/// What the layout shows for a path: whether it is the settings page, and
/// which view is selected (activity at `/activity`, else pull requests).
pub fn view_for_path(path: &str) -> (r: (bool, &'static str))
    ensures
        r.0 == (path@ == "/settings"@),
        path@ == "/activity"@ ==> r.1@ == "activity"@,
        path@ != "/activity"@ ==> r.1@ == "prs"@,
{
    let p = owned(path);
    let is_settings = p == owned("/settings");
    let selected = if p == owned("/activity") {
        "activity"
    } else {
        "prs"
    };
    (is_settings, selected)
}

/// Where selecting a view leads: `/activity` for the activity, else `/`.
pub fn path_for_view(id: &str) -> (path: &'static str)
    ensures
        id@ == "activity"@ ==> path@ == "/activity"@,
        id@ != "activity"@ ==> path@ == "/"@,
{
    if owned(id) == owned("activity") {
        "/activity"
    } else {
        "/"
    }
}

} // verus!
