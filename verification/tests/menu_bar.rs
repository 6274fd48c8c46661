use vortex_shell::layout::{app_menu, application_menu, edit_menu, file_menu, window_menu};
use vortex_shell::menu::{MenuNode, NativeAction};

fn action(id: &str, label: &str, accelerator: Option<&str>) -> MenuNode {
    MenuNode::Action {
        label: label.to_string(),
        accelerator: accelerator.map(|keys| keys.to_string()),
        id: id.to_string(),
    }
}

fn group(label: &str, children: Vec<MenuNode>) -> MenuNode {
    MenuNode::Submenu { label: label.to_string(), children }
}

fn accelerator_of(id: &str) -> Option<String> {
    let tree = application_menu();
    match tree.find_action(id) {
        Some(MenuNode::Action { accelerator, .. }) => accelerator.clone(),
        other => panic!("no action item {:?}: {:?}", id, other),
    }
}

fn label_of(id: &str) -> String {
    let tree = application_menu();
    match tree.find_action(id) {
        Some(MenuNode::Action { label, .. }) => label.clone(),
        other => panic!("no action item {:?}: {:?}", id, other),
    }
}

#[test]
fn menu_bar_has_four_groups_in_order() {
    let tree = application_menu();
    let labels: Vec<String> = tree
        .roots()
        .iter()
        .map(|node| match node {
            MenuNode::Submenu { label, .. } => label.clone(),
            other => panic!("top-level entry is no group: {:?}", other),
        })
        .collect();
    assert_eq!(labels, vec!["Vortex", "File", "Edit", "Window"]);
}

#[test]
fn menu_bar_group_sizes() {
    let tree = application_menu();
    let sizes: Vec<usize> = tree
        .roots()
        .iter()
        .map(|node| match node {
            MenuNode::Submenu { children, .. } => children.len(),
            other => panic!("top-level entry is no group: {:?}", other),
        })
        .collect();
    assert_eq!(sizes, vec![2, 8, 7, 2]);
}

#[test]
fn vortex_group_is_exact() {
    let expected = group(
        "Vortex",
        vec![action("about", "About Vortex", None), MenuNode::Native(NativeAction::Quit)],
    );
    assert_eq!(app_menu(), expected);
}

#[test]
fn file_group_is_exact() {
    let expected = group(
        "File",
        vec![
            action("new", "New", Some("CmdOrControl+N")),
            action("open", "Open...", Some("CmdOrControl+O")),
            MenuNode::Separator,
            action("save", "Save", Some("CmdOrControl+S")),
            action("saveas", "Save As...", None),
            MenuNode::Separator,
            MenuNode::Native(NativeAction::CloseWindow),
            MenuNode::Native(NativeAction::Quit),
        ],
    );
    assert_eq!(file_menu(), expected);
}

#[test]
fn edit_group_is_exact() {
    let expected = group(
        "Edit",
        vec![
            action("undo", "Undo", Some("CmdOrControl+Z")),
            action("redo", "Redo", Some("CmdOrControl+Shift+Z")),
            MenuNode::Separator,
            MenuNode::Native(NativeAction::Cut),
            MenuNode::Native(NativeAction::Copy),
            MenuNode::Native(NativeAction::Paste),
            action("selectall", "Select All", Some("CmdOrControl+A")),
        ],
    );
    assert_eq!(edit_menu(), expected);
}

#[test]
fn window_group_is_exact() {
    let expected = group(
        "Window",
        vec![MenuNode::Native(NativeAction::Minimize), MenuNode::Native(NativeAction::Zoom)],
    );
    assert_eq!(window_menu(), expected);
}

#[test]
fn menu_bar_is_its_four_groups() {
    let tree = application_menu();
    assert_eq!(tree.roots(), &vec![app_menu(), file_menu(), edit_menu(), window_menu()]);
}

#[test]
fn menu_bar_identifiers_in_menu_order() {
    let tree = application_menu();
    assert_eq!(
        tree.action_ids(),
        vec!["about", "new", "open", "save", "saveas", "undo", "redo", "selectall"]
    );
}

#[test]
fn menu_bar_identifiers_are_unique() {
    let ids = application_menu().action_ids();
    for i in 0..ids.len() {
        for j in (i + 1)..ids.len() {
            assert_ne!(ids[i], ids[j]);
        }
    }
    assert!(vortex_shell::menu::all_distinct(&ids));
    assert!(vortex_shell::menu::ids_are_unique(application_menu().roots()));
}

#[test]
fn save_accelerator() {
    assert_eq!(accelerator_of("save"), Some("CmdOrControl+S".to_string()));
}

#[test]
fn accelerators_of_every_item() {
    assert_eq!(accelerator_of("about"), None);
    assert_eq!(accelerator_of("new"), Some("CmdOrControl+N".to_string()));
    assert_eq!(accelerator_of("open"), Some("CmdOrControl+O".to_string()));
    assert_eq!(accelerator_of("save"), Some("CmdOrControl+S".to_string()));
    assert_eq!(accelerator_of("saveas"), None);
    assert_eq!(accelerator_of("undo"), Some("CmdOrControl+Z".to_string()));
    assert_eq!(accelerator_of("redo"), Some("CmdOrControl+Shift+Z".to_string()));
    assert_eq!(accelerator_of("selectall"), Some("CmdOrControl+A".to_string()));
}

#[test]
fn labels_of_every_item() {
    assert_eq!(label_of("about"), "About Vortex");
    assert_eq!(label_of("new"), "New");
    assert_eq!(label_of("open"), "Open...");
    assert_eq!(label_of("save"), "Save");
    assert_eq!(label_of("saveas"), "Save As...");
    assert_eq!(label_of("undo"), "Undo");
    assert_eq!(label_of("redo"), "Redo");
    assert_eq!(label_of("selectall"), "Select All");
}

#[test]
fn native_entries_carry_no_identifier() {
    let tree = application_menu();
    assert_eq!(tree.find_action("quit"), None);
    assert_eq!(tree.find_action("Quit"), None);
    assert_eq!(tree.find_action("copy"), None);
    assert_eq!(tree.find_action(""), None);
    assert_eq!(tree.find_action("Save"), None);
}

#[test]
fn building_twice_gives_the_same_tree() {
    let first = application_menu();
    for _ in 0..100 {
        assert_eq!(application_menu(), first);
    }
}
