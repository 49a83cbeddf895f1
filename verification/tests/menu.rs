use lib_ime::menu::{is_forwarded_menu_click, theme_item_checked, MENU_ACTION_EVENT};

#[test]
fn editor_menu_clicks_are_forwarded() {
    assert!(is_forwarded_menu_click("new-tab"));
    assert!(is_forwarded_menu_click("para-yaml"));
    assert!(is_forwarded_menu_click("check-update"));
    assert!(is_forwarded_menu_click("theme-solarized"));
    assert!(!is_forwarded_menu_click("quit"));
    assert!(!is_forwarded_menu_click("new"));
    assert!(!is_forwarded_menu_click(""));
    assert_eq!(MENU_ACTION_EVENT, "menu-action");
}

#[test]
fn only_the_active_theme_is_checked() {
    assert_eq!(theme_item_checked("theme-dark", "dark"), Some(true));
    assert_eq!(theme_item_checked("theme-light", "dark"), Some(false));
    assert_eq!(theme_item_checked("theme-darker", "dark"), Some(false));
    assert_eq!(theme_item_checked("toggle-source", "dark"), None);
}
