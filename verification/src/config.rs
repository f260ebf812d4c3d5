//! The persisted settings of the application and the changes that the
//! settings commands make to them.

use vstd::prelude::*;
use crate::git_themes::{GitThemeInfo, GitThemes};

verus! {

/// The font list that themes use when the user has chosen none.
pub open spec fn default_font_family() -> Seq<char> {
    "-apple-system, BlinkMacSystemFont, \"Segoe UI\", \"Microsoft YaHei\", \"PingFang SC\", \"Hiragino Sans GB\", sans-serif"@
}

/// The application settings.
pub struct Config {
    pub server_port: u16,
    pub address: String,
    pub current_theme: String,
    pub locale: String,
    pub process_filter: String,
    /// Whether updates are looked for automatically.
    pub auto_check_update: bool,
    /// Whether the window starts hidden in the system tray.
    pub minimize_to_tray: bool,
    /// The font that the theme overlay uses.
    pub font_family: String,
    /// Themes installed through git, keyed by folder name.
    pub git_themes: GitThemes,
}

/// The settings that the settings page reads and writes: all of
/// [`Config`] but the git theme records.
pub struct ConfigDto {
    pub server_port: u16,
    pub address: String,
    pub current_theme: String,
    pub locale: String,
    pub process_filter: String,
    pub auto_check_update: bool,
    pub minimize_to_tray: bool,
    pub font_family: String,
}

/// The message with which the theme in use is refused deletion.
pub open spec fn theme_in_use_message() -> Seq<char> {
    "不能删除当前正在使用的主题"@
}

impl Default for Config {
    fn default() -> (res: Self)
        ensures
            res.server_port == 3030,
            res.address@ == "127.0.0.1"@,
            res.current_theme@ == Seq::<char>::empty(),
            res.locale@ == "zh-CN"@,
            res.process_filter@ == "*"@,
            res.auto_check_update,
            !res.minimize_to_tray,
            res.font_family@ == default_font_family(),
            res.git_themes@ == Map::<Seq<char>, GitThemeInfo>::empty(),
    {
        Config {
            server_port: 3030,
            address: String::from_str("127.0.0.1"),
            current_theme: String::new(),
            locale: String::from_str("zh-CN"),
            process_filter: String::from_str("*"),
            auto_check_update: true,
            minimize_to_tray: false,
            font_family: String::from_str(
                "-apple-system, BlinkMacSystemFont, \"Segoe UI\", \"Microsoft YaHei\", \"PingFang SC\", \"Hiragino Sans GB\", sans-serif",
            ),
            git_themes: GitThemes::new(),
        }
    }
}

impl ConfigDto {
    /// The settings page's part of `c`.
    pub open spec fn of(c: Config) -> ConfigDto {
        ConfigDto {
            server_port: c.server_port,
            address: c.address,
            current_theme: c.current_theme,
            locale: c.locale,
            process_filter: c.process_filter,
            auto_check_update: c.auto_check_update,
            minimize_to_tray: c.minimize_to_tray,
            font_family: c.font_family,
        }
    }
}

impl Config {
    /// `c` with its settings-page part replaced by `d`.
    pub open spec fn with_dto(c: Config, d: ConfigDto) -> Config {
        Config {
            server_port: d.server_port,
            address: d.address,
            current_theme: d.current_theme,
            locale: d.locale,
            process_filter: d.process_filter,
            auto_check_update: d.auto_check_update,
            minimize_to_tray: d.minimize_to_tray,
            font_family: d.font_family,
            git_themes: c.git_themes,
        }
    }

    /// The settings shown on the settings page.
    pub fn to_dto(&self) -> (res: ConfigDto)
        ensures
            res == ConfigDto::of(*self),
            res.server_port == self.server_port,
            res.address == self.address,
            res.current_theme == self.current_theme,
            res.locale == self.locale,
            res.process_filter == self.process_filter,
            res.auto_check_update == self.auto_check_update,
            res.minimize_to_tray == self.minimize_to_tray,
            res.font_family == self.font_family,
    {
        ConfigDto {
            server_port: self.server_port,
            address: self.address.clone(),
            current_theme: self.current_theme.clone(),
            locale: self.locale.clone(),
            process_filter: self.process_filter.clone(),
            auto_check_update: self.auto_check_update,
            minimize_to_tray: self.minimize_to_tray,
            font_family: self.font_family.clone(),
        }
    }

    /// Takes over the settings saved from the settings page; the git theme
    /// records stay as they are.
    pub fn apply_dto(&mut self, dto: ConfigDto)
        ensures
            *final(self) == Config::with_dto(*old(self), dto),
            final(self).server_port == dto.server_port,
            final(self).address == dto.address,
            final(self).current_theme == dto.current_theme,
            final(self).locale == dto.locale,
            final(self).process_filter == dto.process_filter,
            final(self).auto_check_update == dto.auto_check_update,
            final(self).minimize_to_tray == dto.minimize_to_tray,
            final(self).font_family == dto.font_family,
            final(self).git_themes == old(self).git_themes,
    {
        self.server_port = dto.server_port;
        self.address = dto.address;
        self.current_theme = dto.current_theme;
        self.locale = dto.locale;
        self.process_filter = dto.process_filter;
        self.auto_check_update = dto.auto_check_update;
        self.minimize_to_tray = dto.minimize_to_tray;
        self.font_family = dto.font_family;
    }

    /// Makes `theme_name` the theme in use.
    pub fn select_theme(&mut self, theme_name: String)
        ensures
            *final(self) == (Config { current_theme: theme_name, ..*old(self) }),
    {
        self.current_theme = theme_name;
    }

    /// Prepares the deletion of the theme in `theme_folder`: refused, with
    /// nothing changed, when it is the theme in use; otherwise its git record,
    /// if any, is forgotten.
    pub fn release_theme(&mut self, theme_folder: &str) -> (res: Result<(), String>)
        ensures
            old(self).current_theme@ == theme_folder@ <==> res is Err,
            res matches Err(msg) ==> msg@ == theme_in_use_message() && *final(self) == *old(self),
            res is Ok ==> final(self).git_themes@ == old(self).git_themes@.remove(theme_folder@),
            ConfigDto::of(*final(self)) == ConfigDto::of(*old(self)),
    {
        if crate::text::text_eq(self.current_theme.as_str(), theme_folder) {
            proof {
                reveal_strlit("不能删除当前正在使用的主题");
            }
            return Err(String::from_str("不能删除当前正在使用的主题"));
        }
        self.git_themes.remove(theme_folder);
        Ok(())
    }

    /// Records that the theme in `folder_name` was installed from branch
    /// `branch` of `repo_url`, under its folder name.
    pub fn record_git_theme(&mut self, repo_url: String, branch: String, folder_name: String)
        ensures
            final(self).git_themes@ == old(self).git_themes@.insert(
                folder_name@,
                GitThemeInfo { repo_url, branch, folder_name },
            ),
            ConfigDto::of(*final(self)) == ConfigDto::of(*old(self)),
    {
        let key = folder_name.clone();
        self.git_themes.insert(key, GitThemeInfo { repo_url, branch, folder_name });
    }
}

/// The settings page reads each setting as it is, one field for one, and
/// saving from it sets each setting to what the page holds.
pub proof fn law_settings_field_for_field(c: Config, d: ConfigDto)
    ensures
        ConfigDto::of(c).server_port == c.server_port,
        ConfigDto::of(c).address == c.address,
        ConfigDto::of(c).current_theme == c.current_theme,
        ConfigDto::of(c).locale == c.locale,
        ConfigDto::of(c).process_filter == c.process_filter,
        ConfigDto::of(c).auto_check_update == c.auto_check_update,
        ConfigDto::of(c).minimize_to_tray == c.minimize_to_tray,
        ConfigDto::of(c).font_family == c.font_family,
        Config::with_dto(c, d).server_port == d.server_port,
        Config::with_dto(c, d).address == d.address,
        Config::with_dto(c, d).current_theme == d.current_theme,
        Config::with_dto(c, d).locale == d.locale,
        Config::with_dto(c, d).process_filter == d.process_filter,
        Config::with_dto(c, d).auto_check_update == d.auto_check_update,
        Config::with_dto(c, d).minimize_to_tray == d.minimize_to_tray,
        Config::with_dto(c, d).font_family == d.font_family,
        Config::with_dto(c, d).git_themes == c.git_themes,
{
}

/// Saving what the settings page read changes nothing.
pub proof fn law_settings_round_trip(c: Config)
    ensures
        Config::with_dto(c, ConfigDto::of(c)) == c,
{
}

/// The settings page reads back what was saved from it, and saving from it
/// leaves the git theme records as they were.
pub proof fn law_settings_read_back(c: Config, d: ConfigDto)
    ensures
        ConfigDto::of(Config::with_dto(c, d)) == d,
        Config::with_dto(c, d).git_themes == c.git_themes,
{
}

/// A theme recorded as installed from git is kept under its own folder name,
/// and deleting that theme (when it is not the one in use) forgets the record.
pub proof fn law_git_record_lifecycle(
    records: Map<Seq<char>, GitThemeInfo>,
    repo_url: String,
    branch: String,
    folder_name: String,
)
    ensures
        ({
            let after = records.insert(folder_name@, GitThemeInfo { repo_url, branch, folder_name });
            &&& after.contains_key(folder_name@)
            &&& after[folder_name@].folder_name@ == folder_name@
            &&& !after.remove(folder_name@).contains_key(folder_name@)
            &&& after.remove(folder_name@) == records.remove(folder_name@)
        }),
{
    let after = records.insert(folder_name@, GitThemeInfo { repo_url, branch, folder_name });
    assert(after.remove(folder_name@) =~= records.remove(folder_name@));
}

} // verus!
