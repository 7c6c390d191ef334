//! The tray icon: one label, and one entry that quits.

use vstd::prelude::*;
use vstd::string::*;

verus! {

/// The title of the tray icon.
pub const TRAY_TITLE: &'static str = "Lazy Eye";

/// The name of the icon resource.
pub const TRAY_ICON: &'static str = "lazy-eye-icon";

/// The label at the top of the tray menu.
pub const TRAY_LABEL: &'static str = "Lazy Eye";

/// The label of the entry that quits.
pub const QUIT_LABEL: &'static str = "Quit";

/// What the tray reports to the main thread.
#[derive(Debug, Clone, Copy, PartialEq, Eq, Structural)]
pub enum TrayEvent {
    /// The user asked to quit.
    Quit,
}

/// An entry of the tray menu that the user can activate.
#[derive(Debug, Clone)]
pub struct MenuEntry {
    /// What the entry shows.
    pub label: String,
    /// What is reported when the entry is activated.
    pub event: TrayEvent,
}

/// An entry of the tray menu as plain values.
pub struct MenuEntryView {
    pub label: Seq<char>,
    pub event: TrayEvent,
}

impl View for MenuEntry {
    type V = MenuEntryView;

    open spec fn view(&self) -> MenuEntryView {
        MenuEntryView { label: self.label@, event: self.event }
    }
}

/// The tray icon and its menu.
#[derive(Debug, Clone)]
pub struct TrayMenu {
    /// The title of the icon.
    pub title: String,
    /// The name of the icon resource.
    pub icon: String,
    /// The label at the top of the menu, which does nothing.
    pub label: String,
    /// The entries that the user can activate, from the top.
    pub entries: Vec<MenuEntry>,
}

/// The tray icon and its menu as plain values.
pub struct TrayMenuView {
    pub title: Seq<char>,
    pub icon: Seq<char>,
    pub label: Seq<char>,
    pub entries: Seq<MenuEntryView>,
}

impl View for TrayMenu {
    type V = TrayMenuView;

    open spec fn view(&self) -> TrayMenuView {
        TrayMenuView {
            title: self.title@,
            icon: self.icon@,
            label: self.label@,
            entries: self.entries@.map_values(|e: MenuEntry| e@),
        }
    }
}

/// The tray of this application: the label, and below it the one entry, which
/// quits.
pub open spec fn tray() -> TrayMenuView {
    TrayMenuView {
        title: "Lazy Eye"@,
        icon: "lazy-eye-icon"@,
        label: "Lazy Eye"@,
        entries: seq![MenuEntryView { label: "Quit"@, event: TrayEvent::Quit }],
    }
}

/// Describes the tray of this application.
pub fn tray_menu() -> (menu: TrayMenu)
    ensures
        menu@ == tray(),
{
    let mut entries: Vec<MenuEntry> = Vec::new();
    entries.push(MenuEntry { label: String::from_str(QUIT_LABEL), event: TrayEvent::Quit });
    let menu = TrayMenu {
        title: String::from_str(TRAY_TITLE),
        icon: String::from_str(TRAY_ICON),
        label: String::from_str(TRAY_LABEL),
        entries,
    };
    assert(menu@.entries =~= tray().entries);
    menu
}

} // verus!
