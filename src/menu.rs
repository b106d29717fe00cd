//! The application menu: its items, their identifiers, titles and keyboard
//! accelerators, and the fixed layout the application installs.
//!
//! The host turns an `AppMenu` into the platform's menu; activating a custom
//! item reports its identifier (see `event`).

use vstd::prelude::*;

use crate::event::{lemma_menu_script_determines_id, menu_script};

verus! {

/// An item that the platform supplies itself.
#[derive(Clone, Copy, Debug, PartialEq, Eq, Structural)]
pub enum NativeItem {
    Separator,
    Copy,
}

/// An item of the application's own, reported by its identifier when activated.
#[derive(Debug)]
pub struct CustomItem {
    pub id: String,
    pub title: String,
    pub accelerator: Option<String>,
}

#[derive(Debug)]
pub enum MenuEntry {
    Native(NativeItem),
    Custom(CustomItem),
}

/// A titled submenu of plain entries.
#[derive(Debug)]
pub struct Submenu {
    pub title: String,
    pub entries: Vec<MenuEntry>,
}

#[derive(Debug)]
pub enum TopEntry {
    Entry(MenuEntry),
    Submenu(Submenu),
}

/// The menu bar: its entries in order.
#[derive(Debug)]
pub struct AppMenu {
    pub entries: Vec<TopEntry>,
}

pub struct CustomItemView {
    pub id: Seq<char>,
    pub title: Seq<char>,
    pub accelerator: Option<Seq<char>>,
}

pub enum MenuEntryView {
    Native(NativeItem),
    Custom(CustomItemView),
}

pub struct SubmenuView {
    pub title: Seq<char>,
    pub entries: Seq<MenuEntryView>,
}

pub enum TopEntryView {
    Entry(MenuEntryView),
    Submenu(SubmenuView),
}

impl View for CustomItem {
    type V = CustomItemView;

    open spec fn view(&self) -> CustomItemView {
        CustomItemView {
            id: self.id@,
            title: self.title@,
            accelerator: match self.accelerator {
                Some(a) => Some(a@),
                None => None,
            },
        }
    }
}

impl View for MenuEntry {
    type V = MenuEntryView;

    open spec fn view(&self) -> MenuEntryView {
        match self {
            MenuEntry::Native(n) => MenuEntryView::Native(*n),
            MenuEntry::Custom(c) => MenuEntryView::Custom(c@),
        }
    }
}

impl View for Submenu {
    type V = SubmenuView;

    open spec fn view(&self) -> SubmenuView {
        SubmenuView { title: self.title@, entries: self.entries@.map_values(|e: MenuEntry| e@) }
    }
}

impl View for TopEntry {
    type V = TopEntryView;

    open spec fn view(&self) -> TopEntryView {
        match self {
            TopEntry::Entry(e) => TopEntryView::Entry(e@),
            TopEntry::Submenu(s) => TopEntryView::Submenu(s@),
        }
    }
}

impl View for AppMenu {
    type V = Seq<TopEntryView>;

    open spec fn view(&self) -> Seq<TopEntryView> {
        self.entries@.map_values(|e: TopEntry| e@)
    }
}

/// A custom item with a keyboard accelerator.
pub open spec fn shortcut_item(id: Seq<char>, title: Seq<char>, accelerator: Seq<char>) -> MenuEntryView {
    MenuEntryView::Custom(CustomItemView { id, title, accelerator: Some(accelerator) })
}

/// The File submenu: New, a separator, Close Window.
pub open spec fn file_menu_layout() -> SubmenuView {
    SubmenuView {
        title: "File"@,
        entries: seq![
            shortcut_item("new"@, "New"@, "CmdOrCtrl+n"@),
            MenuEntryView::Native(NativeItem::Separator),
            shortcut_item("close"@, "Close Window"@, "CmdOrCtrl+w"@),
        ],
    }
}

/// The View submenu: one item for each of the five views, numbered in order,
/// with separators after the first and the fourth.
pub open spec fn view_menu_layout() -> SubmenuView {
    SubmenuView {
        title: "View"@,
        entries: seq![
            shortcut_item("browse"@, "Show Browser"@, "CmdOrCtrl+1"@),
            MenuEntryView::Native(NativeItem::Separator),
            shortcut_item("writer"@, "Show Writer"@, "CmdOrCtrl+2"@),
            shortcut_item("decorator"@, "Show Decorator"@, "CmdOrCtrl+3"@),
            shortcut_item("previewer"@, "Show Previewer"@, "CmdOrCtrl+4"@),
            MenuEntryView::Native(NativeItem::Separator),
            shortcut_item("publisher"@, "Show Publisher"@, "CmdOrCtrl+5"@),
        ],
    }
}

/// The menu bar: Copy, Hide (no accelerator), then the File and View submenus.
pub open spec fn app_menu_layout() -> Seq<TopEntryView> {
    seq![
        TopEntryView::Entry(MenuEntryView::Native(NativeItem::Copy)),
        TopEntryView::Entry(
            MenuEntryView::Custom(CustomItemView { id: "hide"@, title: "Hide"@, accelerator: None }),
        ),
        TopEntryView::Submenu(file_menu_layout()),
        TopEntryView::Submenu(view_menu_layout()),
    ]
}

/// The identifiers of the custom items among `entries`, in order.
pub open spec fn entry_ids(entries: Seq<MenuEntryView>) -> Seq<Seq<char>>
    decreases entries.len(),
{
    if entries.len() == 0 {
        seq![]
    } else {
        let rest = entry_ids(entries.drop_last());
        match entries.last() {
            MenuEntryView::Custom(c) => rest.push(c.id),
            MenuEntryView::Native(_) => rest,
        }
    }
}

/// The identifiers of the custom items of a menu bar, submenus included, in order.
pub open spec fn menu_ids(top: Seq<TopEntryView>) -> Seq<Seq<char>>
    decreases top.len(),
{
    if top.len() == 0 {
        seq![]
    } else {
        menu_ids(top.drop_last()) + match top.last() {
            TopEntryView::Entry(e) => entry_ids(seq![e]),
            TopEntryView::Submenu(s) => entry_ids(s.entries),
        }
    }
}

/// The identifiers that the application menu's items report, in menu order.
pub open spec fn app_menu_ids() -> Seq<Seq<char>> {
    seq![
        "hide"@,
        "new"@,
        "close"@,
        "browse"@,
        "writer"@,
        "decorator"@,
        "previewer"@,
        "publisher"@,
    ]
}

/// The custom items of the application menu report exactly these identifiers.
pub proof fn lemma_app_menu_ids()
    ensures
        menu_ids(app_menu_layout()) == app_menu_ids(),
{
    let file = file_menu_layout().entries;
    let view = view_menu_layout().entries;
    reveal_with_fuel(entry_ids, 8);
    assert(file.drop_last().drop_last() =~= seq![file[0]]);
    assert(file.drop_last() =~= seq![file[0], file[1]]);
    assert(entry_ids(file) =~= seq!["new"@, "close"@]);
    assert(view.drop_last() =~= view.subrange(0, 6));
    assert(view.subrange(0, 6).drop_last() =~= view.subrange(0, 5));
    assert(view.subrange(0, 5).drop_last() =~= view.subrange(0, 4));
    assert(view.subrange(0, 4).drop_last() =~= view.subrange(0, 3));
    assert(view.subrange(0, 3).drop_last() =~= view.subrange(0, 2));
    assert(view.subrange(0, 2).drop_last() =~= view.subrange(0, 1));
    assert(view.subrange(0, 1).drop_last() =~= view.subrange(0, 0));
    assert(entry_ids(view) =~= seq!["browse"@, "writer"@, "decorator"@, "previewer"@, "publisher"@]);
    let top = app_menu_layout();
    reveal_with_fuel(menu_ids, 5);
    assert(top.drop_last() =~= top.subrange(0, 3));
    assert(top.subrange(0, 3).drop_last() =~= top.subrange(0, 2));
    assert(top.subrange(0, 2).drop_last() =~= top.subrange(0, 1));
    assert(top.subrange(0, 1).drop_last() =~= top.subrange(0, 0));
    assert(entry_ids(seq![MenuEntryView::Native(NativeItem::Copy)]) =~= seq![]);
    assert(menu_ids(top) =~= app_menu_ids());
}

/// Every custom item of the application menu dispatches an event of its own:
/// no two items share an identifier, so no two share a script.
pub proof fn lemma_app_menu_events_distinct(i: int, j: int)
    requires
        0 <= i < menu_ids(app_menu_layout()).len(),
        0 <= j < menu_ids(app_menu_layout()).len(),
        i != j,
    ensures
        menu_script(menu_ids(app_menu_layout())[i]) != menu_script(menu_ids(app_menu_layout())[j]),
{
    lemma_app_menu_ids();
    let ids = app_menu_ids();
    reveal_strlit("hide");
    reveal_strlit("new");
    reveal_strlit("close");
    reveal_strlit("browse");
    reveal_strlit("writer");
    reveal_strlit("decorator");
    reveal_strlit("previewer");
    reveal_strlit("publisher");
    assert("browse"@[0] == 'b' && "writer"@[0] == 'w');
    assert("decorator"@[0] == 'd' && "previewer"@[0] == 'p' && "publisher"@[0] == 'p');
    assert("previewer"@[1] == 'r' && "publisher"@[1] == 'u');
    if ids[i] == ids[j] {
        assert(ids[i][0] == ids[j][0] && ids[i][1] == ids[j][1]);
    }
    lemma_menu_script_determines_id(ids[i], ids[j]);
}

/// A custom item with the given identifier, title and accelerator.
pub fn custom_item(id: &str, title: &str, accelerator: Option<&str>) -> (r: MenuEntry)
    ensures
        r@ == MenuEntryView::Custom(
            CustomItemView {
                id: id@,
                title: title@,
                accelerator: match accelerator {
                    Some(a) => Some(a@),
                    None => None,
                },
            },
        ),
{
    let accelerator = match accelerator {
        Some(a) => Some(String::from_str(a)),
        None => None,
    };
    MenuEntry::Custom(CustomItem { id: String::from_str(id), title: String::from_str(title), accelerator })
}

/// Builds the File submenu.
pub fn file_menu() -> (r: Submenu)
    ensures
        r@ == file_menu_layout(),
{
    let mut entries: Vec<MenuEntry> = Vec::new();
    entries.push(custom_item("new", "New", Some("CmdOrCtrl+n")));
    entries.push(MenuEntry::Native(NativeItem::Separator));
    entries.push(custom_item("close", "Close Window", Some("CmdOrCtrl+w")));
    let r = Submenu { title: String::from_str("File"), entries };
    assert(r@.entries =~= file_menu_layout().entries);
    r
}

/// Builds the View submenu.
pub fn view_menu() -> (r: Submenu)
    ensures
        r@ == view_menu_layout(),
{
    let mut entries: Vec<MenuEntry> = Vec::new();
    entries.push(custom_item("browse", "Show Browser", Some("CmdOrCtrl+1")));
    entries.push(MenuEntry::Native(NativeItem::Separator));
    entries.push(custom_item("writer", "Show Writer", Some("CmdOrCtrl+2")));
    entries.push(custom_item("decorator", "Show Decorator", Some("CmdOrCtrl+3")));
    entries.push(custom_item("previewer", "Show Previewer", Some("CmdOrCtrl+4")));
    entries.push(MenuEntry::Native(NativeItem::Separator));
    entries.push(custom_item("publisher", "Show Publisher", Some("CmdOrCtrl+5")));
    let r = Submenu { title: String::from_str("View"), entries };
    assert(r@.entries =~= view_menu_layout().entries);
    r
}

/// Builds the application's menu bar.
pub fn app_menu() -> (r: AppMenu)
    ensures
        r@ == app_menu_layout(),
{
    let mut entries: Vec<TopEntry> = Vec::new();
    entries.push(TopEntry::Entry(MenuEntry::Native(NativeItem::Copy)));
    entries.push(TopEntry::Entry(custom_item("hide", "Hide", None)));
    entries.push(TopEntry::Submenu(file_menu()));
    entries.push(TopEntry::Submenu(view_menu()));
    let r = AppMenu { entries };
    assert(r@ =~= app_menu_layout());
    r
}

} // verus!
