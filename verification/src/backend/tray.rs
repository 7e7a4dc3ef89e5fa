//! The tray menu of the backend package and what its items do.

use vstd::prelude::*;

verus! {

/// A window of the backend package.
#[derive(Clone, Copy, Debug, PartialEq, Eq, Structural)]
pub enum Window {
    /// The status window.
    Main,
    /// The settings window.
    Settings,
}

/// The label a window is known by.
pub open spec fn window_label(w: Window) -> Seq<char> {
    match w {
        Window::Main => "main"@,
        Window::Settings => "settings"@,
    }
}

impl Window {
    /// The label the window is known by.
    pub fn label(&self) -> (s: String)
        ensures
            s@ == window_label(*self),
    {
        match self {
            Window::Main => String::from_str("main"),
            Window::Settings => String::from_str("settings"),
        }
    }
}

/// What choosing a tray menu item does.
#[derive(Clone, Copy, Debug, PartialEq, Eq, Structural)]
pub enum TrayAction {
    /// Show and focus a window.
    Show(Window),
    /// Reveal the data directory in the file manager.
    OpenDataFolder,
    /// Stop every service and leave.
    Quit,
    /// Nothing (an unknown item).
    Ignore,
}

/// The action of the menu item with identifier `id`.
pub open spec fn action_of(id: Seq<char>) -> TrayAction {
    if id == "show"@ {
        TrayAction::Show(Window::Main)
    } else if id == "settings"@ {
        TrayAction::Show(Window::Settings)
    } else if id == "open_data"@ {
        TrayAction::OpenDataFolder
    } else if id == "quit"@ {
        TrayAction::Quit
    } else {
        TrayAction::Ignore
    }
}

/// The action of the menu item with identifier `id`; see `action_of`.
pub fn tray_action(id: &str) -> (a: TrayAction)
    ensures
        a == action_of(id@),
{
    let id = id.to_owned();
    if id == String::from_str("show") {
        TrayAction::Show(Window::Main)
    } else if id == String::from_str("settings") {
        TrayAction::Show(Window::Settings)
    } else if id == String::from_str("open_data") {
        TrayAction::OpenDataFolder
    } else if id == String::from_str("quit") {
        TrayAction::Quit
    } else {
        TrayAction::Ignore
    }
}

/// The items of the tray menu, in order: (identifier, label).
pub open spec fn menu_items() -> Seq<(Seq<char>, Seq<char>)> {
    seq![
        ("show"@, "Show status"@),
        ("settings"@, "Settings…"@),
        ("open_data"@, "Open data folder"@),
        ("quit"@, "Quit Music Server backend"@),
    ]
}

/// The label that names an action in the tray menu.
pub open spec fn label_naming(a: TrayAction) -> Seq<char> {
    match a {
        TrayAction::Show(Window::Main) => "Show status"@,
        TrayAction::Show(Window::Settings) => "Settings…"@,
        TrayAction::OpenDataFolder => "Open data folder"@,
        TrayAction::Quit => "Quit Music Server backend"@,
        TrayAction::Ignore => Seq::empty(),
    }
}

/// The items of the tray menu; see `menu_items`.
pub fn tray_menu() -> (items: Vec<(String, String)>)
    ensures
        items@.map_values(|p: (String, String)| (p.0@, p.1@)) == menu_items(),
        items@.len() == 4,
        forall|i: int| 0 <= i < 4 ==> #[trigger] items@[i].1@ == label_naming(action_of(items@[i].0@)),
{
    let items = vec![
        (String::from_str("show"), String::from_str("Show status")),
        (String::from_str("settings"), String::from_str("Settings…")),
        (String::from_str("open_data"), String::from_str("Open data folder")),
        (String::from_str("quit"), String::from_str("Quit Music Server backend")),
    ];
    assert(items@.map_values(|p: (String, String)| (p.0@, p.1@)) =~= menu_items());
    proof {
        lemma_menu_labels_name_actions();
        assert forall|i: int| 0 <= i < 4 implies #[trigger] items@[i].1@ == label_naming(action_of(items@[i].0@)) by {
            assert(items@.map_values(|p: (String, String)| (p.0@, p.1@))[i] == (items@[i].0@, items@[i].1@));
            assert(menu_items()[i].1 == label_naming(action_of(menu_items()[i].0)));
        }
    }
    items
}

/// Every item of the tray menu does what its label says: the first shows
/// the status window, the second the settings window, the third opens the
/// data folder and the last quits.
pub proof fn lemma_menu_items_act()
    ensures
        action_of(menu_items()[0].0) == TrayAction::Show(Window::Main),
        action_of(menu_items()[1].0) == TrayAction::Show(Window::Settings),
        action_of(menu_items()[2].0) == TrayAction::OpenDataFolder,
        action_of(menu_items()[3].0) == TrayAction::Quit,
{
    reveal_strlit("show");
    reveal_strlit("settings");
    reveal_strlit("open_data");
    reveal_strlit("quit");
    assert("settings"@ != "show"@) by {
        assert("settings"@[1] != "show"@[1]);
    }
    assert("open_data"@ != "show"@) by {
        assert("open_data"@[0] != "show"@[0]);
    }
    assert("open_data"@ != "settings"@) by {
        assert("open_data"@[0] != "settings"@[0]);
    }
    assert("quit"@ != "show"@) by {
        assert("quit"@[0] != "show"@[0]);
    }
    assert("quit"@ != "settings"@) by {
        assert("quit"@[0] != "settings"@[0]);
    }
    assert("quit"@ != "open_data"@) by {
        assert("quit"@[0] != "open_data"@[0]);
    }
}

/// Every item of the tray menu is labelled with the name of what choosing it
/// does, and every item does something: the status window, the settings
/// window, the data folder and quitting each have exactly one item.
pub proof fn lemma_menu_labels_name_actions()
    ensures
        menu_items().len() == 4,
        forall|i: int| 0 <= i < 4 ==> #[trigger] menu_items()[i].1 == label_naming(action_of(menu_items()[i].0)),
        forall|i: int| 0 <= i < 4 ==> action_of(#[trigger] menu_items()[i].0) != TrayAction::Ignore,
        forall|i: int, j: int| 0 <= i < 4 && 0 <= j < 4 && i != j
            ==> action_of(#[trigger] menu_items()[i].0) != action_of(#[trigger] menu_items()[j].0),
{
    lemma_menu_items_act();
    let m = menu_items();
    assert(m[0].1 == label_naming(action_of(m[0].0)));
    assert(m[1].1 == label_naming(action_of(m[1].0)));
    assert(m[2].1 == label_naming(action_of(m[2].0)));
    assert(m[3].1 == label_naming(action_of(m[3].0)));
}

} // verus!
