use desktop_shell::menu::{create_menu, AboutMetadata, MenuItem, MenuTree, PredefinedAction, Submenu};

fn action(a: PredefinedAction) -> MenuItem {
    MenuItem::Predefined(a)
}

#[test]
fn menu_has_four_submenus_in_order() {
    let menu = create_menu("Notes");
    let labels: Vec<&str> = menu.submenus().iter().map(|m| m.label.as_str()).collect();
    assert_eq!(labels, vec!["Notes", "File", "Edit", "Window"]);
    assert!(menu.submenus().iter().all(|m| m.enabled));
}

#[test]
fn app_submenu_for_demo() {
    let menu = create_menu("Demo");
    let app = &menu.submenus()[0];
    assert_eq!(app.label, "Demo");
    assert_eq!(
        app.items,
        vec![
            MenuItem::About(AboutMetadata { name: Some("Demo".to_string()) }),
            MenuItem::Separator,
            action(PredefinedAction::Services),
            MenuItem::Separator,
            action(PredefinedAction::Hide),
            action(PredefinedAction::HideOthers),
            action(PredefinedAction::ShowAll),
            MenuItem::Separator,
            action(PredefinedAction::Quit),
        ]
    );
}

#[test]
fn file_edit_window_submenus() {
    let menu = create_menu("Demo");
    let subs = menu.submenus();
    assert_eq!(subs[1].items, vec![action(PredefinedAction::CloseWindow)]);
    assert_eq!(
        subs[2].items,
        vec![
            action(PredefinedAction::Undo),
            action(PredefinedAction::Redo),
            MenuItem::Separator,
            action(PredefinedAction::Cut),
            action(PredefinedAction::Copy),
            action(PredefinedAction::Paste),
            action(PredefinedAction::SelectAll),
        ]
    );
    assert_eq!(subs[3].items, vec![action(PredefinedAction::Minimize)]);
}

#[test]
fn empty_app_name_labels_app_submenu_empty() {
    let menu = create_menu("");
    assert_eq!(menu.submenus().len(), 4);
    assert_eq!(menu.submenus()[0].label, "");
    assert_eq!(menu.submenus()[0].items[0], MenuItem::About(AboutMetadata { name: Some(String::new()) }));
}

#[test]
fn tree_appends_in_order() {
    let mut tree = MenuTree::new();
    assert!(tree.submenus().is_empty());
    tree.append(Submenu::with_items("A".to_string(), true, vec![MenuItem::Separator]));
    tree.append(Submenu::with_items("B".to_string(), false, vec![]));
    assert_eq!(tree.submenus().len(), 2);
    assert_eq!(tree.submenus()[0].label, "A");
    assert_eq!(tree.submenus()[0].items, vec![MenuItem::Separator]);
    assert_eq!(tree.submenus()[1].label, "B");
    assert!(!tree.submenus()[1].enabled);
}

#[test]
fn only_quit_terminates() {
    let menu = create_menu("Demo");
    let quitting: Vec<&MenuItem> = menu
        .submenus()
        .iter()
        .flat_map(|m| m.items.iter())
        .filter(|i| i.terminates_process())
        .collect();
    assert_eq!(quitting, vec![&action(PredefinedAction::Quit)]);
    assert!(!MenuItem::Separator.terminates_process());
    assert!(!MenuItem::About(AboutMetadata { name: None }).terminates_process());
}
