use smtc2web::watch::{ConfigWatcher, WatchAction, WatchEvent};

#[test]
fn watcher_reloads_once_per_modification() {
    let mut w = ConfigWatcher::new(Some(100));
    assert_eq!(w.on_event(WatchEvent::ConfigTouched(Some(100))), WatchAction::Wait);
    assert_eq!(w.on_event(WatchEvent::ConfigTouched(Some(200))), WatchAction::Reload);
    assert_eq!(w.last_modified, Some(200));
    assert_eq!(w.on_event(WatchEvent::ConfigTouched(Some(200))), WatchAction::Wait);
    assert_eq!(w.on_event(WatchEvent::ConfigTouched(None)), WatchAction::Reload);
    assert_eq!(w.last_modified, None);
}

#[test]
fn watcher_other_events() {
    let mut w = ConfigWatcher::new(None);
    assert_eq!(w.on_event(WatchEvent::OtherPath), WatchAction::Wait);
    assert_eq!(w.on_event(WatchEvent::Idle), WatchAction::Wait);
    assert_eq!(w.on_event(WatchEvent::WatchFailed), WatchAction::ReportError);
    assert_eq!(w.last_modified, None);
    assert_eq!(w.on_event(WatchEvent::Closed), WatchAction::Stop);
}

#[test]
fn watcher_first_sighting_of_missing_file() {
    let mut w = ConfigWatcher::new(None);
    assert_eq!(w.on_event(WatchEvent::ConfigTouched(None)), WatchAction::Wait);
    assert_eq!(w.on_event(WatchEvent::ConfigTouched(Some(-5))), WatchAction::Reload);
}
