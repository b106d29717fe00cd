use desktop_shell::clipboard::{clipboard_change_count, PasteboardReading, LOOKUP_FAILED};
use desktop_shell::event::{menu_event_script, SCRIPT_HEAD, SCRIPT_TAIL};
use desktop_shell::menu::{
    app_menu, custom_item, file_menu, view_menu, AppMenu, MenuEntry, NativeItem, TopEntry,
};

fn custom_fields(entry: &MenuEntry) -> Option<(String, String, Option<String>)> {
    match entry {
        MenuEntry::Custom(c) => Some((c.id.clone(), c.title.clone(), c.accelerator.clone())),
        MenuEntry::Native(_) => None,
    }
}

fn all_ids(menu: &AppMenu) -> Vec<String> {
    let mut ids = Vec::new();
    for top in &menu.entries {
        match top {
            TopEntry::Entry(e) => ids.extend(custom_fields(e).map(|f| f.0)),
            TopEntry::Submenu(s) => {
                for e in &s.entries {
                    ids.extend(custom_fields(e).map(|f| f.0));
                }
            }
        }
    }
    ids
}

#[test]
fn event_script_for_new_item() {
    let expected = "\n\t\t\t\twindow.dispatchEvent(new CustomEvent(\n\t\t\t\t\t'menu', \n\t\t\t\t\t{\n\t\t\t\t\t\tdetail: {\n\t\t\t\t\t\t\titemId: \"new\"\n\t\t\t\t\t\t}\n\t\t\t\t\t}\n\t\t\t\t));\n\t\t\t";
    assert_eq!(menu_event_script("new"), expected);
}

#[test]
fn event_script_embeds_id_verbatim() {
    let id = "a\"b c";
    let script = menu_event_script(id);
    assert_eq!(script, format!("{}{}{}", SCRIPT_HEAD, id, SCRIPT_TAIL));
    assert!(script.contains("'menu'"));
    assert!(script.contains("itemId: \"a\"b c\""));
}

#[test]
fn event_script_for_empty_id() {
    let script = menu_event_script("");
    assert!(script.contains("itemId: \"\"\n"));
    assert_eq!(script.len(), SCRIPT_HEAD.len() + SCRIPT_TAIL.len());
}

#[test]
fn every_menu_item_has_its_own_event() {
    let ids = all_ids(&app_menu());
    let scripts: Vec<String> = ids.iter().map(|id| menu_event_script(id)).collect();
    for i in 0..scripts.len() {
        assert!(scripts[i].contains(&format!("itemId: \"{}\"", ids[i])));
        for j in 0..scripts.len() {
            if i != j {
                assert_ne!(scripts[i], scripts[j]);
            }
        }
    }
}

#[test]
fn clipboard_count_passes_counter_through() {
    assert_eq!(clipboard_change_count(PasteboardReading::ChangeCount(42)), 42);
    assert_eq!(clipboard_change_count(PasteboardReading::ChangeCount(0)), 0);
    assert_eq!(clipboard_change_count(PasteboardReading::ChangeCount(i64::MAX)), i64::MAX);
}

#[test]
fn clipboard_count_missing_class_is_sentinel() {
    assert_eq!(clipboard_change_count(PasteboardReading::ClassMissing), -1);
    assert_eq!(LOOKUP_FAILED, -1);
}

#[test]
fn clipboard_count_missing_pasteboard_is_sentinel() {
    assert_eq!(clipboard_change_count(PasteboardReading::NoPasteboard), -1);
}

#[test]
fn app_menu_layout_in_order() {
    let menu = app_menu();
    assert_eq!(menu.entries.len(), 4);
    assert!(matches!(menu.entries[0], TopEntry::Entry(MenuEntry::Native(NativeItem::Copy))));
    match &menu.entries[1] {
        TopEntry::Entry(e) => {
            assert_eq!(custom_fields(e), Some(("hide".to_string(), "Hide".to_string(), None)));
        }
        TopEntry::Submenu(_) => panic!("expected the Hide item"),
    }
    match (&menu.entries[2], &menu.entries[3]) {
        (TopEntry::Submenu(file), TopEntry::Submenu(view)) => {
            assert_eq!(file.title, "File");
            assert_eq!(view.title, "View");
        }
        _ => panic!("expected the File and View submenus"),
    }
    assert_eq!(
        all_ids(&menu),
        vec!["hide", "new", "close", "browse", "writer", "decorator", "previewer", "publisher"]
    );
}

#[test]
fn file_menu_items() {
    let file = file_menu();
    assert_eq!(file.title, "File");
    assert_eq!(file.entries.len(), 3);
    assert_eq!(
        custom_fields(&file.entries[0]),
        Some(("new".to_string(), "New".to_string(), Some("CmdOrCtrl+n".to_string())))
    );
    assert!(matches!(file.entries[1], MenuEntry::Native(NativeItem::Separator)));
    assert_eq!(
        custom_fields(&file.entries[2]),
        Some(("close".to_string(), "Close Window".to_string(), Some("CmdOrCtrl+w".to_string())))
    );
}

#[test]
fn view_menu_items() {
    let view = view_menu();
    assert_eq!(view.title, "View");
    assert_eq!(view.entries.len(), 7);
    assert!(matches!(view.entries[1], MenuEntry::Native(NativeItem::Separator)));
    assert!(matches!(view.entries[5], MenuEntry::Native(NativeItem::Separator)));
    let expected = [
        (0, "browse", "Show Browser", "CmdOrCtrl+1"),
        (2, "writer", "Show Writer", "CmdOrCtrl+2"),
        (3, "decorator", "Show Decorator", "CmdOrCtrl+3"),
        (4, "previewer", "Show Previewer", "CmdOrCtrl+4"),
        (6, "publisher", "Show Publisher", "CmdOrCtrl+5"),
    ];
    for (i, id, title, accel) in expected {
        assert_eq!(
            custom_fields(&view.entries[i]),
            Some((id.to_string(), title.to_string(), Some(accel.to_string())))
        );
    }
}

#[test]
fn custom_item_without_accelerator() {
    let item = custom_item("hide", "Hide", None);
    assert_eq!(custom_fields(&item), Some(("hide".to_string(), "Hide".to_string(), None)));
    let item = custom_item("x", "X", Some("CmdOrCtrl+x"));
    assert_eq!(
        custom_fields(&item),
        Some(("x".to_string(), "X".to_string(), Some("CmdOrCtrl+x".to_string())))
    );
}
