use lazy_eye::tray::{tray_menu, TrayEvent, QUIT_LABEL, TRAY_ICON, TRAY_LABEL, TRAY_TITLE};

#[test]
fn the_tray_has_a_label_and_one_entry_that_quits() {
    let menu = tray_menu();
    assert_eq!(menu.title, "Lazy Eye");
    assert_eq!(menu.icon, "lazy-eye-icon");
    assert_eq!(menu.label, "Lazy Eye");
    assert_eq!(menu.entries.len(), 1);
    assert_eq!(menu.entries[0].label, "Quit");
    assert_eq!(menu.entries[0].event, TrayEvent::Quit);
}

#[test]
fn the_tray_constants_are_what_the_menu_shows() {
    assert_eq!(TRAY_TITLE, "Lazy Eye");
    assert_eq!(TRAY_ICON, "lazy-eye-icon");
    assert_eq!(TRAY_LABEL, "Lazy Eye");
    assert_eq!(QUIT_LABEL, "Quit");
}
