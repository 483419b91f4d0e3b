//! The application menus and key bindings, as data. The View menu offers
//! Refresh only where refreshing applies; the app installs the menus and
//! binds the keys.

use vstd::prelude::*;

verus! {

/// The actions of the menus and key bindings.
#[derive(Debug, Clone, Copy, PartialEq, Eq, Structural)]
pub enum Action {
    Quit,
    Hide,
    HideOthers,
    ShowAll,
    Minimize,
    Zoom,
    ToggleFullScreen,
    CloseWindow,
    ShowPullRequests,
    ShowActivity,
    ShowSettings,
    Refresh,
    Cut,
    Copy,
    Paste,
    SelectAll,
}

/// The system's own editing actions that menu items stand for.
#[derive(Debug, Clone, Copy, PartialEq, Eq, Structural)]
pub enum SystemAction {
    Cut,
    Copy,
    Paste,
    SelectAll,
}

/// One entry of a menu.
#[derive(Debug, Clone, Copy)]
pub enum MenuEntry {
    Action(&'static str, Action),
    SystemAction(&'static str, Action, SystemAction),
    Separator,
    Services,
}

/// A menu of the menu bar.
#[derive(Debug)]
pub struct Menu {
    pub name: &'static str,
    pub items: Vec<MenuEntry>,
}

/// The key bindings: keystroke and action.
pub fn key_bindings() -> (b: Vec<(&'static str, Action)>)
    ensures
        b@.map_values(|x: (&'static str, Action)| (x.0@, x.1)) == seq![
            ("cmd-q"@, Action::Quit),
            ("cmd-h"@, Action::Hide),
            ("alt-cmd-h"@, Action::HideOthers),
            ("cmd-m"@, Action::Minimize),
            ("cmd-w"@, Action::CloseWindow),
            ("cmd-1"@, Action::ShowPullRequests),
            ("cmd-2"@, Action::ShowActivity),
            ("cmd-,"@, Action::ShowSettings),
            ("cmd-r"@, Action::Refresh),
            ("ctrl-cmd-f"@, Action::ToggleFullScreen),
            ("cmd-x"@, Action::Cut),
            ("cmd-c"@, Action::Copy),
            ("cmd-v"@, Action::Paste),
            ("cmd-a"@, Action::SelectAll),
        ],
{
    let mut b = Vec::new();
    b.push(("cmd-q", Action::Quit));
    b.push(("cmd-h", Action::Hide));
    b.push(("alt-cmd-h", Action::HideOthers));
    b.push(("cmd-m", Action::Minimize));
    b.push(("cmd-w", Action::CloseWindow));
    b.push(("cmd-1", Action::ShowPullRequests));
    b.push(("cmd-2", Action::ShowActivity));
    b.push(("cmd-,", Action::ShowSettings));
    b.push(("cmd-r", Action::Refresh));
    b.push(("ctrl-cmd-f", Action::ToggleFullScreen));
    b.push(("cmd-x", Action::Cut));
    b.push(("cmd-c", Action::Copy));
    b.push(("cmd-v", Action::Paste));
    b.push(("cmd-a", Action::SelectAll));
    b
}

/// The actions of the View menu, in order.
pub open spec fn view_actions(include_refresh: bool) -> Seq<Option<Action>> {
    let head = seq![Some(Action::ShowPullRequests), Some(Action::ShowActivity), None];
    let middle = if include_refresh {
        seq![Some(Action::Refresh), None]
    } else {
        Seq::empty()
    };
    head + middle + seq![Some(Action::ToggleFullScreen)]
}

/// The action of an entry; `None` for a separator or the Services submenu.
pub open spec fn entry_action(e: MenuEntry) -> Option<Action> {
    match e {
        MenuEntry::Action(_, a) => Some(a),
        MenuEntry::SystemAction(_, a, _) => Some(a),
        _ => None,
    }
}

/// An entry of a menu with its label as characters.
pub enum EntryView {
    Action(Seq<char>, Action),
    SystemAction(Seq<char>, Action, SystemAction),
    Separator,
    Services,
}

pub open spec fn entry_view(e: MenuEntry) -> EntryView {
    match e {
        MenuEntry::Action(label, a) => EntryView::Action(label@, a),
        MenuEntry::SystemAction(label, a, s) => EntryView::SystemAction(label@, a, s),
        MenuEntry::Separator => EntryView::Separator,
        MenuEntry::Services => EntryView::Services,
    }
}

pub open spec fn entry_views(items: Seq<MenuEntry>) -> Seq<EntryView> {
    items.map_values(|e: MenuEntry| entry_view(e))
}

/// The application menu: settings, the Services submenu, hiding, quitting.
pub open spec fn app_menu_spec() -> Seq<EntryView> {
    seq![
        EntryView::Action("Settings…"@, Action::ShowSettings),
        EntryView::Separator,
        EntryView::Services,
        EntryView::Separator,
        EntryView::Action("Hide Angry Hub"@, Action::Hide),
        EntryView::Action("Hide Others"@, Action::HideOthers),
        EntryView::Action("Show All"@, Action::ShowAll),
        EntryView::Separator,
        EntryView::Action("Quit Angry Hub"@, Action::Quit),
    ]
}

/// The Edit menu: the system's cut, copy, paste and select all.
pub open spec fn edit_menu_spec() -> Seq<EntryView> {
    seq![
        EntryView::SystemAction("Cut"@, Action::Cut, SystemAction::Cut),
        EntryView::SystemAction("Copy"@, Action::Copy, SystemAction::Copy),
        EntryView::SystemAction("Paste"@, Action::Paste, SystemAction::Paste),
        EntryView::Separator,
        EntryView::SystemAction("Select All"@, Action::SelectAll, SystemAction::SelectAll),
    ]
}

/// The View menu: the two views, then Refresh when it applies, then full
/// screen, with separators between the groups.
pub open spec fn view_menu_spec(include_refresh: bool) -> Seq<EntryView> {
    let head = seq![
        EntryView::Action("Pull Requests"@, Action::ShowPullRequests),
        EntryView::Action("Activity"@, Action::ShowActivity),
        EntryView::Separator,
    ];
    let middle = if include_refresh {
        seq![EntryView::Action("Refresh"@, Action::Refresh), EntryView::Separator]
    } else {
        Seq::empty()
    };
    head + middle + seq![EntryView::Action("Enter Full Screen"@, Action::ToggleFullScreen)]
}

/// The Window menu: minimize, zoom, close.
pub open spec fn window_menu_spec() -> Seq<EntryView> {
    seq![
        EntryView::Action("Minimize"@, Action::Minimize),
        EntryView::Action("Zoom"@, Action::Zoom),
        EntryView::Separator,
        EntryView::Action("Close Window"@, Action::CloseWindow),
    ]
}

/// The View menu's entries; see `view_menu_spec`.
pub fn view_items(include_refresh: bool) -> (items: Vec<MenuEntry>)
    ensures
        entry_views(items@) == view_menu_spec(include_refresh),
        items@.map_values(|e: MenuEntry| entry_action(e)) == view_actions(include_refresh),
{
    let mut items = Vec::new();
    items.push(MenuEntry::Action("Pull Requests", Action::ShowPullRequests));
    items.push(MenuEntry::Action("Activity", Action::ShowActivity));
    items.push(MenuEntry::Separator);
    if include_refresh {
        items.push(MenuEntry::Action("Refresh", Action::Refresh));
        items.push(MenuEntry::Separator);
    }
    items.push(MenuEntry::Action("Enter Full Screen", Action::ToggleFullScreen));
    assert(entry_views(items@) =~= view_menu_spec(include_refresh));
    assert(items@.map_values(|e: MenuEntry| entry_action(e)) =~= view_actions(include_refresh));
    items
}

/// The menu bar: the application menu, Edit, View and Window. Only the View
/// menu depends on `include_refresh`.
pub fn menus(include_refresh: bool) -> (m: Vec<Menu>)
    ensures
        m@.len() == 4,
        m@[0].name@ == "Angry Hub"@,
        m@[1].name@ == "Edit"@,
        m@[2].name@ == "View"@,
        m@[3].name@ == "Window"@,
        entry_views(m@[0].items@) == app_menu_spec(),
        entry_views(m@[1].items@) == edit_menu_spec(),
        entry_views(m@[2].items@) == view_menu_spec(include_refresh),
        entry_views(m@[3].items@) == window_menu_spec(),
        m@[2].items@.map_values(|e: MenuEntry| entry_action(e)) == view_actions(include_refresh),
{
    let mut app = Vec::new();
    app.push(MenuEntry::Action("Settings…", Action::ShowSettings));
    app.push(MenuEntry::Separator);
    app.push(MenuEntry::Services);
    app.push(MenuEntry::Separator);
    app.push(MenuEntry::Action("Hide Angry Hub", Action::Hide));
    app.push(MenuEntry::Action("Hide Others", Action::HideOthers));
    app.push(MenuEntry::Action("Show All", Action::ShowAll));
    app.push(MenuEntry::Separator);
    app.push(MenuEntry::Action("Quit Angry Hub", Action::Quit));
    assert(entry_views(app@) =~= app_menu_spec());
    let mut edit = Vec::new();
    edit.push(MenuEntry::SystemAction("Cut", Action::Cut, SystemAction::Cut));
    edit.push(MenuEntry::SystemAction("Copy", Action::Copy, SystemAction::Copy));
    edit.push(MenuEntry::SystemAction("Paste", Action::Paste, SystemAction::Paste));
    edit.push(MenuEntry::Separator);
    edit.push(MenuEntry::SystemAction("Select All", Action::SelectAll, SystemAction::SelectAll));
    assert(entry_views(edit@) =~= edit_menu_spec());
    let mut window = Vec::new();
    window.push(MenuEntry::Action("Minimize", Action::Minimize));
    window.push(MenuEntry::Action("Zoom", Action::Zoom));
    window.push(MenuEntry::Separator);
    window.push(MenuEntry::Action("Close Window", Action::CloseWindow));
    assert(entry_views(window@) =~= window_menu_spec());
    let mut m = Vec::new();
    m.push(Menu { name: "Angry Hub", items: app });
    m.push(Menu { name: "Edit", items: edit });
    m.push(Menu { name: "View", items: view_items(include_refresh) });
    m.push(Menu { name: "Window", items: window });
    m
}

} // verus!
