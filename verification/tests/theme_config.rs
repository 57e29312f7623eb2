//! Theme lookup and configuration merging.

use rust_tui_monitor::config::{config_dir, config_path, CliArgs, Config, OsFamily};
use rust_tui_monitor::theme::Theme;

#[test]
fn from_name_is_case_insensitive() {
    let upper = Theme::from_name("NORD");
    let lower = Theme::from_name("nord");
    assert_eq!(upper.background, [46, 52, 64]);
    assert_eq!(upper.background, lower.background);
    assert_eq!(upper.danger, lower.danger);
}

#[test]
fn from_name_accepts_aliases() {
    let dashed = Theme::from_name("Tokyo-Night");
    let underscored = Theme::from_name("tokyo_night");
    assert_eq!(dashed.primary, [122, 162, 247]);
    assert_eq!(underscored.primary, [122, 162, 247]);
    assert_eq!(Theme::from_name("rose-pine").background, Theme::rosepine().background);
    assert_eq!(Theme::from_name("rose_pine").background, Theme::rosepine().background);
}

#[test]
fn from_name_falls_back_to_default() {
    let unknown = Theme::from_name("no-such-theme");
    assert_eq!(unknown.background, Theme::default().background);
    assert_eq!(unknown.border, [88, 91, 112]);
}

#[test]
fn every_named_theme_resolves_to_itself() {
    assert_eq!(Theme::from_name("gruvbox").success, Theme::gruvbox().success);
    assert_eq!(Theme::from_name("dracula").danger, Theme::dracula().danger);
    assert_eq!(Theme::from_name("monokai").warning, Theme::monokai().warning);
    assert_eq!(Theme::from_name("cyberpunk").primary, Theme::cyberpunk().primary);
    assert_eq!(Theme::from_name("solarized-dark").border, Theme::solarized_dark().border);
    assert_eq!(Theme::from_name("solarized_light").background, Theme::solarized_light().background);
    assert_eq!(Theme::from_name("one-dark").foreground, Theme::one_dark().foreground);
    assert_eq!(Theme::from_name("material").secondary, Theme::material().secondary);
    assert_eq!(Theme::from_name("ayu-dark").success, Theme::ayu_dark().success);
}

#[test]
fn usage_color_follows_bands() {
    let theme = Theme::default();
    assert_eq!(theme.usage_color(499), theme.success);
    assert_eq!(theme.usage_color(500), theme.warning);
    assert_eq!(theme.usage_color(799), theme.warning);
    assert_eq!(theme.usage_color(800), theme.danger);
}

#[test]
fn cycle_theme_steps_and_wraps() {
    let (first, theme) = Theme::cycle_theme(0);
    assert_eq!(first, 1);
    assert_eq!(theme.background, Theme::nord().background);
    let (wrapped, theme) = Theme::cycle_theme(12);
    assert_eq!(wrapped, 0);
    assert_eq!(theme.background, Theme::default().background);
}

#[test]
fn config_defaults() {
    let config = Config::default();
    assert_eq!(config.refresh_rate, 1000);
    assert!(config.show_cpu);
    assert!(config.show_memory);
    assert!(config.show_disk);
    assert!(config.show_network);
    assert!(config.rounded_borders);
    assert_eq!(config.temp_unit, "celsius");
    assert_eq!(config.theme.background, [26, 27, 38]);
}

#[test]
fn load_applies_overrides() {
    let args = CliArgs {
        theme: Some("dracula".to_string()),
        config: None,
        refresh_rate: Some(250),
    };
    let config = Config::load(Config::default(), args);
    assert_eq!(config.refresh_rate, 250);
    assert_eq!(config.theme.background, Theme::dracula().background);
    assert!(config.rounded_borders);
    assert_eq!(config.temp_unit, "celsius");
}

#[test]
fn load_keeps_base_without_overrides() {
    let args = CliArgs { theme: None, config: None, refresh_rate: None };
    let config = Config::load(Config::default(), args);
    assert_eq!(config.refresh_rate, 1000);
    assert_eq!(config.theme.background, Theme::default().background);
}

#[test]
fn config_dir_per_platform() {
    assert_eq!(
        config_dir(OsFamily::Unix, Some("/home/sam".to_string())),
        Some("/home/sam/.config".to_string())
    );
    assert_eq!(
        config_dir(OsFamily::MacOs, Some("/Users/sam".to_string())),
        Some("/Users/sam/Library/Application Support".to_string())
    );
    assert_eq!(
        config_dir(OsFamily::Windows, Some("C:/Users/sam/AppData".to_string())),
        Some("C:/Users/sam/AppData".to_string())
    );
    assert_eq!(config_dir(OsFamily::Unix, None), None);
}

#[test]
fn config_path_prefers_explicit_path() {
    assert_eq!(
        config_path(Some("custom.toml".to_string()), Some("/home/sam/.config".to_string())),
        "custom.toml"
    );
    assert_eq!(
        config_path(None, Some("/home/sam/.config".to_string())),
        "/home/sam/.config/rust-tui-monitor/config.toml"
    );
    assert_eq!(config_path(None, None), "config.toml");
}
