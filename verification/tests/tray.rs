use netmount::tray::{toggled, tray_menu_command, TrayCommand};

#[test]
fn tray_menu_items_show_or_quit() {
    assert_eq!(tray_menu_command("show"), TrayCommand::Show);
    assert_eq!(tray_menu_command("quit"), TrayCommand::Quit);
    assert_eq!(tray_menu_command("Show"), TrayCommand::Ignore);
    assert_eq!(tray_menu_command(""), TrayCommand::Ignore);
    assert_eq!(tray_menu_command("quit "), TrayCommand::Ignore);
}

#[test]
fn a_toggle_follows_the_preference_or_flips() {
    assert!(toggled(Some(true), true));
    assert!(toggled(Some(true), false));
    assert!(!toggled(Some(false), true));
    assert!(!toggled(Some(false), false));
    assert!(!toggled(None, true));
    assert!(toggled(None, false));
}
