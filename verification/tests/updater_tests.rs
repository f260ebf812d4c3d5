use smtc2web::updater::{
    install_failed_message, no_pending_update_message, record_check, take_pending, updater_unavailable_message,
    UpdateCheck, UpdateCheckResult,
};

#[test]
fn check_result_available() {
    let check = UpdateCheck::Available {
        current_version: "1.0.0".to_string(),
        version: "1.1.0".to_string(),
        notes: Some("fixes".to_string()),
    };
    assert!(check.keeps_pending());
    let r = UpdateCheckResult::from_check("1.0.0".to_string(), check);
    assert!(r.has_update);
    assert_eq!(r.current_version, "1.0.0");
    assert_eq!(r.latest_version, "1.1.0");
    assert_eq!(r.notes, Some("fixes".to_string()));
    assert_eq!(r.error, None);
}

#[test]
fn check_result_up_to_date() {
    assert!(!UpdateCheck::UpToDate.keeps_pending());
    let r = UpdateCheckResult::from_check("2.0.0".to_string(), UpdateCheck::UpToDate);
    assert!(!r.has_update);
    assert_eq!(r.current_version, "2.0.0");
    assert_eq!(r.latest_version, "2.0.0");
    assert_eq!(r.notes, None);
    assert_eq!(r.error, None);
}

#[test]
fn check_result_failed() {
    let check = UpdateCheck::Failed("network down".to_string());
    assert!(!check.keeps_pending());
    let r = UpdateCheckResult::from_check("2.0.0".to_string(), check);
    assert!(!r.has_update);
    assert_eq!(r.current_version, "2.0.0");
    assert_eq!(r.latest_version, "");
    assert_eq!(r.notes, None);
    assert_eq!(r.error, Some("检查更新失败: network down".to_string()));
}

#[test]
fn pending_update_is_taken_once() {
    let mut slot: Option<u32> = Some(7);
    assert_eq!(take_pending(&mut slot), Ok(7));
    assert!(slot.is_none());
    assert_eq!(take_pending(&mut slot), Err("没有待安装的更新，请先检查更新".to_string()));
}

#[test]
fn pending_default_is_empty() {
    let mut slot: Option<String> = Option::default();
    assert_eq!(take_pending(&mut slot), Err(no_pending_update_message()));
}

#[test]
fn updater_messages() {
    assert_eq!(updater_unavailable_message("x"), "更新器不可用: x");
    assert_eq!(install_failed_message("bad signature"), "安装更新失败: bad signature");
    assert_eq!(no_pending_update_message(), "没有待安装的更新，请先检查更新");
}

#[test]
fn record_check_fills_slot_only_for_found_update() {
    let mut slot: Option<u32> = Some(1);
    let found = UpdateCheck::Available {
        current_version: "1.0.0".to_string(),
        version: "1.1.0".to_string(),
        notes: None,
    };
    record_check(&mut slot, &found, Some(5));
    assert_eq!(slot, Some(5));
    record_check(&mut slot, &UpdateCheck::UpToDate, Some(6));
    assert_eq!(slot, None);
    slot = Some(2);
    record_check(&mut slot, &UpdateCheck::Failed("x".to_string()), Some(7));
    assert_eq!(slot, None);
    assert_eq!(take_pending(&mut slot), Err("没有待安装的更新，请先检查更新".to_string()));
}
