use smtc2web::config::{Config, ConfigDto};
use smtc2web::git_themes::{GitThemeInfo, GitThemes};

fn info(url: &str, branch: &str, folder: &str) -> GitThemeInfo {
    GitThemeInfo { repo_url: url.to_string(), branch: branch.to_string(), folder_name: folder.to_string() }
}

#[test]
fn default_config_values() {
    let c = Config::default();
    assert_eq!(c.server_port, 3030);
    assert_eq!(c.address, "127.0.0.1");
    assert_eq!(c.current_theme, "");
    assert_eq!(c.locale, "zh-CN");
    assert_eq!(c.process_filter, "*");
    assert!(c.auto_check_update);
    assert!(!c.minimize_to_tray);
    assert_eq!(
        c.font_family,
        "-apple-system, BlinkMacSystemFont, \"Segoe UI\", \"Microsoft YaHei\", \"PingFang SC\", \"Hiragino Sans GB\", sans-serif"
    );
    assert_eq!(c.git_themes.len(), 0);
}

#[test]
fn git_themes_insert_get_remove() {
    let mut t = GitThemes::new();
    assert_eq!(t.len(), 0);
    assert!(t.get("a").is_none());
    t.insert("a".to_string(), info("u1", "main", "a"));
    t.insert("b".to_string(), info("u2", "dev", "b"));
    assert_eq!(t.len(), 2);
    assert!(t.contains("a"));
    assert_eq!(t.get("b").unwrap().repo_url, "u2");
    t.insert("a".to_string(), info("u3", "main", "a"));
    assert_eq!(t.len(), 2);
    assert_eq!(t.get("a").unwrap().repo_url, "u3");
    t.remove("a");
    assert!(!t.contains("a"));
    assert!(t.get("a").is_none());
    assert_eq!(t.len(), 1);
    t.remove("missing");
    assert_eq!(t.len(), 1);
    assert_eq!(t.entries()[0].0, "b");
}

#[test]
fn settings_round_trip() {
    let mut c = Config::default();
    c.record_git_theme("https://example.com/t.git".to_string(), "main".to_string(), "t".to_string());
    let dto = c.to_dto();
    assert_eq!(dto.server_port, 3030);
    assert_eq!(dto.locale, "zh-CN");
    c.apply_dto(dto);
    assert_eq!(c.server_port, 3030);
    assert_eq!(c.address, "127.0.0.1");
    assert!(c.git_themes.contains("t"));
}

#[test]
fn apply_dto_takes_all_fields_and_keeps_records() {
    let mut c = Config::default();
    c.record_git_theme("u".to_string(), "b".to_string(), "f".to_string());
    c.apply_dto(ConfigDto {
        server_port: 8080,
        address: "0.0.0.0".to_string(),
        current_theme: "neon".to_string(),
        locale: "en-US".to_string(),
        process_filter: "spotify.exe".to_string(),
        auto_check_update: false,
        minimize_to_tray: true,
        font_family: "serif".to_string(),
    });
    assert_eq!(c.server_port, 8080);
    assert_eq!(c.address, "0.0.0.0");
    assert_eq!(c.current_theme, "neon");
    assert_eq!(c.locale, "en-US");
    assert_eq!(c.process_filter, "spotify.exe");
    assert!(!c.auto_check_update);
    assert!(c.minimize_to_tray);
    assert_eq!(c.font_family, "serif");
    assert_eq!(c.git_themes.get("f").unwrap().branch, "b");
    let back = c.to_dto();
    assert_eq!(back.server_port, 8080);
    assert_eq!(back.current_theme, "neon");
}

#[test]
fn release_theme_refuses_theme_in_use() {
    let mut c = Config::default();
    c.record_git_theme("u".to_string(), "main".to_string(), "neon".to_string());
    c.select_theme("neon".to_string());
    assert_eq!(c.release_theme("neon"), Err("不能删除当前正在使用的主题".to_string()));
    assert!(c.git_themes.contains("neon"));
    assert_eq!(c.current_theme, "neon");
}

#[test]
fn release_theme_forgets_git_record() {
    let mut c = Config::default();
    c.record_git_theme("u".to_string(), "main".to_string(), "neon".to_string());
    c.record_git_theme("v".to_string(), "main".to_string(), "dark".to_string());
    c.select_theme("dark".to_string());
    assert_eq!(c.release_theme("neon"), Ok(()));
    assert!(!c.git_themes.contains("neon"));
    assert!(c.git_themes.contains("dark"));
    assert_eq!(c.release_theme("plain"), Ok(()));
    assert_eq!(c.git_themes.len(), 1);
}

#[test]
fn record_git_theme_is_keyed_by_folder() {
    let mut c = Config::default();
    c.record_git_theme("https://git.example/a.git".to_string(), "main".to_string(), "alpha".to_string());
    let r = c.git_themes.get("alpha").unwrap();
    assert_eq!(r.folder_name, "alpha");
    assert_eq!(r.repo_url, "https://git.example/a.git");
    assert_eq!(r.branch, "main");
    c.record_git_theme("https://git.example/b.git".to_string(), "dev".to_string(), "alpha".to_string());
    assert_eq!(c.git_themes.len(), 1);
    assert_eq!(c.git_themes.get("alpha").unwrap().branch, "dev");
}

#[test]
fn select_theme_sets_current() {
    let mut c = Config::default();
    c.select_theme("default".to_string());
    assert_eq!(c.current_theme, "default");
}
