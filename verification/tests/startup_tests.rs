use smtc2web::startup::{already_running_message, has_restart_flag, lock_failed_message, uses_builtin_theme};

#[test]
fn restart_flag_detection() {
    let args = vec!["smtc2web".to_string(), "--restarted".to_string()];
    assert!(has_restart_flag(&args));
    let args = vec!["smtc2web".to_string(), "--restart".to_string()];
    assert!(!has_restart_flag(&args));
    assert!(!has_restart_flag(&[]));
}

#[test]
fn builtin_theme_names() {
    assert!(uses_builtin_theme(""));
    assert!(uses_builtin_theme("default"));
    assert!(!uses_builtin_theme("Default"));
    assert!(!uses_builtin_theme("neon"));
}

#[test]
fn single_instance_messages() {
    assert_eq!(already_running_message(), "程序已在运行");
    assert_eq!(lock_failed_message("busy"), "创建互斥锁失败: busy");
}
