//! Menus as plain values.

use crate::event::{Action, ActionView};
use crate::status::{WifiConnection, WifiConnectionView};
use vstd::prelude::*;

verus! {

/// One line of a menu or of a submenu.
#[derive(Debug, Clone, PartialEq, Eq)]
pub enum MenuEntry {
    /// A line with a checkmark; a click sends the action.
    Checkmark { label: String, checked: bool, action: Action },
    /// A line between groups.
    Separator,
    /// A line of text; `enabled` says whether it can be clicked.
    Standard { label: String, enabled: bool },
    /// A group of networks of which one is selected. Each shows its name;
    /// picking one asks for a change to it.
    RadioGroup { selected: usize, options: Vec<WifiConnection> },
}

pub enum MenuEntryView {
    Checkmark { label: Seq<char>, checked: bool, action: ActionView },
    Separator,
    Standard { label: Seq<char>, enabled: bool },
    RadioGroup { selected: usize, options: Seq<WifiConnectionView> },
}

impl View for MenuEntry {
    type V = MenuEntryView;

    open spec fn view(&self) -> MenuEntryView {
        match self {
            MenuEntry::Checkmark { label, checked, action } => MenuEntryView::Checkmark {
                label: label@,
                checked: *checked,
                action: action@,
            },
            MenuEntry::Separator => MenuEntryView::Separator,
            MenuEntry::Standard { label, enabled } => MenuEntryView::Standard {
                label: label@,
                enabled: *enabled,
            },
            MenuEntry::RadioGroup { selected, options } => MenuEntryView::RadioGroup {
                selected: *selected,
                options: options.deep_view(),
            },
        }
    }
}

impl DeepView for MenuEntry {
    type V = MenuEntryView;

    open spec fn deep_view(&self) -> MenuEntryView {
        self@
    }
}

/// One item of a tray menu: a line, or a submenu of lines.
#[derive(Debug, Clone, PartialEq, Eq)]
pub enum MenuItem {
    Entry(MenuEntry),
    SubMenu { label: String, submenu: Vec<MenuEntry> },
}

pub enum MenuItemView {
    Entry(MenuEntryView),
    SubMenu { label: Seq<char>, submenu: Seq<MenuEntryView> },
}

impl View for MenuItem {
    type V = MenuItemView;

    open spec fn view(&self) -> MenuItemView {
        match self {
            MenuItem::Entry(entry) => MenuItemView::Entry(entry@),
            MenuItem::SubMenu { label, submenu } => MenuItemView::SubMenu {
                label: label@,
                submenu: submenu.deep_view(),
            },
        }
    }
}

impl DeepView for MenuItem {
    type V = MenuItemView;

    open spec fn deep_view(&self) -> MenuItemView {
        self@
    }
}

/// The action that picking an option of a group of networks sends: a change
/// to that network. Nothing for a position outside the group.
pub open spec fn spec_pick(options: Seq<WifiConnectionView>, position: int) -> Option<ActionView> {
    if 0 <= position < options.len() {
        Some(ActionView::ChangeAccessPoint(options[position]))
    } else {
        None
    }
}

pub fn pick(options: &Vec<WifiConnection>, position: usize) -> (r: Option<Action>)
    ensures
        r.deep_view() == spec_pick(options.deep_view(), position as int),
{
    if position < options.len() {
        Some(Action::ChangeAccessPoint(options[position].duplicate()))
    } else {
        None
    }
}

/// Puts a line at the end of a menu.
pub fn push_entry(list: &mut Vec<MenuEntry>, entry: MenuEntry)
    ensures
        final(list).deep_view() == old(list).deep_view().push(entry@),
{
    list.push(entry);
    assert(list.deep_view() =~= old(list).deep_view().push(entry@));
}

/// Puts an item at the end of a menu.
pub fn push_item(list: &mut Vec<MenuItem>, item: MenuItem)
    ensures
        final(list).deep_view() == old(list).deep_view().push(item@),
{
    list.push(item);
    assert(list.deep_view() =~= old(list).deep_view().push(item@));
}

/// A menu without lines.
pub fn no_entries() -> (list: Vec<MenuEntry>)
    ensures
        list.deep_view() == Seq::<MenuEntryView>::empty(),
{
    let list: Vec<MenuEntry> = Vec::new();
    assert(list.deep_view() =~= Seq::<MenuEntryView>::empty());
    list
}

/// A menu without items.
pub fn no_items() -> (list: Vec<MenuItem>)
    ensures
        list.deep_view() == Seq::<MenuItemView>::empty(),
{
    let list: Vec<MenuItem> = Vec::new();
    assert(list.deep_view() =~= Seq::<MenuItemView>::empty());
    list
}

} // verus!
