use paste_output::tray::{
    change_language, language_at, language_menu_items, menu_command, TrayCommand, LANGUAGE_COUNT,
};

#[test]
fn menu_lists_all_languages_in_order() {
    let items = language_menu_items("auto");
    assert_eq!(items.len(), LANGUAGE_COUNT);
    assert_eq!(items[0].id, "lang_auto");
    assert_eq!(items[0].label, "Auto-detect");
    assert_eq!(items[17].id, "lang_uk");
    assert_eq!(items[17].label, "Ukrainian");
    assert_eq!(language_at(2), ("he", "Hebrew"));
}

#[test]
fn exactly_the_current_language_is_ticked() {
    let items = language_menu_items("he");
    let ticked: Vec<&str> = items.iter().filter(|i| i.checked).map(|i| i.id.as_str()).collect();
    assert_eq!(ticked, vec!["lang_he"]);
}

#[test]
fn unknown_language_ticks_nothing() {
    let items = language_menu_items("xx");
    assert!(items.iter().all(|i| !i.checked));
}

#[test]
fn menu_ids_map_to_commands() {
    assert_eq!(menu_command("lang_fr"), TrayCommand::SelectLanguage("fr".to_string()));
    assert_eq!(menu_command("lang_"), TrayCommand::SelectLanguage(String::new()));
    assert_eq!(menu_command("settings"), TrayCommand::OpenSettings);
    assert_eq!(menu_command("quit"), TrayCommand::Quit);
    assert_eq!(menu_command("language"), TrayCommand::Ignore);
}

#[test]
fn every_language_item_selects_its_language() {
    for item in language_menu_items("en") {
        let code = item.id.strip_prefix("lang_").unwrap().to_string();
        assert_eq!(menu_command(&item.id), TrayCommand::SelectLanguage(code));
    }
}

#[test]
fn changing_language() {
    let mut current = "en".to_string();
    assert!(!change_language(&mut current, "en"));
    assert_eq!(current, "en");
    assert!(change_language(&mut current, "ja"));
    assert_eq!(current, "ja");
}
