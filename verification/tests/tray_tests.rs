use smtc2web::tray::{local_url, menu_entries, menu_item_ids, tray_menu_action, TrayAction, TrayLabels};

#[test]
fn local_url_formats_port() {
    assert_eq!(local_url(3030), "http://localhost:3030");
    assert_eq!(local_url(0), "http://localhost:0");
    assert_eq!(local_url(65535), "http://localhost:65535");
}

#[test]
fn menu_actions() {
    assert_eq!(tray_menu_action("show_window"), TrayAction::ShowWindow);
    assert_eq!(tray_menu_action("open_web"), TrayAction::OpenWeb);
    assert_eq!(tray_menu_action("check_update"), TrayAction::CheckUpdate);
    assert_eq!(tray_menu_action("quit"), TrayAction::Quit);
    assert_eq!(tray_menu_action("Quit"), TrayAction::Ignore);
    assert_eq!(tray_menu_action(""), TrayAction::Ignore);
}

#[test]
fn every_menu_item_has_an_action() {
    let ids = menu_item_ids();
    assert_eq!(ids, vec!["show_window", "open_web", "check_update", "quit"]);
    for id in ids {
        assert_ne!(tray_menu_action(id), TrayAction::Ignore);
    }
}

#[test]
fn fallback_labels() {
    let l = TrayLabels::fallback();
    assert_eq!(l.show_window, "显示窗口");
    assert_eq!(l.open_web, "打开网页");
    assert_eq!(l.check_update, "检查更新");
    assert_eq!(l.quit, "退出应用");
    let own = TrayLabels {
        show_window: "Show".to_string(),
        open_web: "Open".to_string(),
        check_update: "Update".to_string(),
        quit: "Quit".to_string(),
    };
    assert_eq!(TrayLabels::or_fallback(Some(own)).quit, "Quit");
    assert_eq!(TrayLabels::or_fallback(None).quit, "退出应用");
}

#[test]
fn menu_entries_pair_ids_with_labels() {
    let entries = menu_entries(TrayLabels::fallback());
    let expected = vec![
        ("show_window", "显示窗口".to_string()),
        ("open_web", "打开网页".to_string()),
        ("check_update", "检查更新".to_string()),
        ("quit", "退出应用".to_string()),
    ];
    assert_eq!(entries, expected);
}
