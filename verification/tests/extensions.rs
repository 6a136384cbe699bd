//! Extensions of both editors, their names, and the themes they carry.

use thematic::editors::vscode::extension::VsCodeExtension;
use thematic::editors::vscode::theme::VsCodeTheme;
use thematic::editors::zed::extension::ZedExtension;
use thematic::editors::zed::theme::{Appearance, ZedTheme, ZedThemeFamily, ZedThemeStyle};
use thematic::themes::VsCodeExtension as ThemeDirExtension;

fn vscode_theme(name: &str, theme_type: &str, background: &str, foreground: &str) -> VsCodeTheme {
    let mut theme = VsCodeTheme::new(name.to_string());
    theme.theme_type = Some(theme_type.to_string());
    theme.set_color("editor.background".to_string(), background.to_string());
    theme.set_color("editor.foreground".to_string(), foreground.to_string());
    theme
}

fn zed_theme(name: &str, appearance: Appearance, background: &str) -> ZedTheme {
    let mut style = ZedThemeStyle::default();
    style.background = Some(background.to_string());
    ZedTheme { name: name.to_string(), appearance, style }
}

fn catppuccin_family() -> ZedThemeFamily {
    ZedThemeFamily {
        schema: Some("https://zed.dev/schema/themes/v0.2.0.json".to_string()),
        author: "Catppuccin <releases@catppuccin.com>".to_string(),
        name: "Catppuccin".to_string(),
        themes: vec![
            zed_theme("Catppuccin Latte", Appearance::Light, "#eff1f5"),
            zed_theme("Catppuccin Frappé", Appearance::Dark, "#303446"),
            zed_theme("Catppuccin Macchiato", Appearance::Dark, "#24273a"),
            zed_theme("Catppuccin Mocha", Appearance::Dark, "#1e1e2e"),
        ],
    }
}

#[test]
fn extension_normalizing_names() {
    assert_eq!("input.json", VsCodeExtension::normalize_filename("input-color-theme.json"));
    assert_eq!("input.json", VsCodeExtension::normalize_filename("input.json"));
    assert_eq!("input.json", VsCodeExtension::normalize_filename("input-color-theme"));
    assert_eq!("input.json", VsCodeExtension::normalize_filename("input"));
}

#[test]
fn vsc_extension_normalizing_names() {
    assert_eq!("input-color-theme.json", ThemeDirExtension::normalize_filename("input-color-theme.json"));
    assert_eq!("input-color-theme.json", ThemeDirExtension::normalize_filename("input.json"));
    assert_eq!("input-color-theme.json", ThemeDirExtension::normalize_filename("input-color-theme"));
    assert_eq!("input-color-theme.json", ThemeDirExtension::normalize_filename("input"));
}

#[test]
fn modern_theme_format() {
    let theme = vscode_theme("Rosé Pine Moon", "dark", "#232136", "#e0def4");
    assert_eq!(theme.name, "Rosé Pine Moon");
    assert_eq!(theme.get_theme_type(), Some("dark"));
    assert!(theme.is_dark_theme());
    assert!(!theme.is_light_theme());
    assert!(theme.get_color("editor.background").is_some());
    assert!(theme.get_color("editor.foreground").is_some());
}

#[test]
fn older_theme_format() {
    let theme = vscode_theme("Bluloco Light", "light", "#f9f9f9", "#383a42");
    assert_eq!(theme.name, "Bluloco Light");
    assert_eq!(theme.get_theme_type(), Some("light"));
    assert!(!theme.is_dark_theme());
    assert!(theme.is_light_theme());
    assert!(theme.get_color("editor.background").is_some());
    assert!(theme.get_color("editor.foreground").is_some());
}

#[test]
fn read_all_fixtures() {
    let themelist = [
        ("Catppuccin Frappé", "dark"),
        ("Catppuccin Latte", "light"),
        ("Catppuccin Macchiato", "dark"),
        ("Catppuccin Mocha", "dark"),
        ("Rosé Pine", "dark"),
        ("Rosé Pine Dawn", "light"),
        ("Rosé Pine Moon", "dark"),
        ("Bluloco Light", "light"),
        ("Bluloco Light Italic", "light"),
    ];
    for (name, kind) in themelist {
        let theme = vscode_theme(name, kind, "#000000", "#ffffff");
        assert!(!theme.name.is_empty());
    }
}

#[test]
fn deserialize_fixtures() {
    let families = vec![
        catppuccin_family(),
        ZedThemeFamily {
            schema: None,
            author: "Rosé Pine".to_string(),
            name: "Rosé Pine".to_string(),
            themes: vec![zed_theme("Rosé Pine", Appearance::Dark, "#191724")],
        },
    ];
    for family in families {
        assert!(!family.themes.is_empty());
    }
}

#[test]
fn load_zed_fixture() {
    let theme_family = catppuccin_family();
    assert_eq!(theme_family.name, "Catppuccin");
    assert_eq!(theme_family.author, "Catppuccin <releases@catppuccin.com>");
    assert!(!theme_family.themes.is_empty());
    let first_theme = &theme_family.themes[0];
    assert_eq!(first_theme.name, "Catppuccin Latte");
    assert!(matches!(first_theme.appearance, Appearance::Light));
}

#[test]
fn vscode_theme_file_name_is_slug() {
    let theme = VsCodeTheme::new("Rosé Pine Moon".to_string());
    assert_eq!(theme.filename, "rose-pine-moon.json");
}

#[test]
fn constructed_extension_lists_its_themes() {
    let themes = vec![
        vscode_theme("Rosé Pine Moon", "dark", "#232136", "#e0def4"),
        vscode_theme("Rosé Pine Dawn", "light", "#faf4ed", "#575279"),
    ];
    let ext = VsCodeExtension::new("Rosé Pine", "rose-pine", themes);
    assert_eq!(ext.name, "Rosé Pine");
    assert_eq!(ext.directory, ".vscode/extensions/rose-pine");
    assert_eq!(ext.manifest.name, "rose-pine");
    assert_eq!(ext.manifest.display_name, "Rosé Pine");
    assert_eq!(ext.manifest.contributes.themes.len(), 2);
    assert_eq!(ext.manifest.contributes.themes[0].ui_theme, "vs-dark");
    assert_eq!(ext.manifest.contributes.themes[1].ui_theme, "vs");
    assert_eq!(ext.manifest.contributes.themes[0].path, "rose-pine-moon.json");
    assert_eq!(ext.manifest.contributes.themes[0].label, "rose-pine-moon");
}

#[test]
fn zed_names_and_globs() {
    assert_eq!(ZedExtension::normalize_name("Rosé Pine Moon.json"), "rose-pine-moon.json");
    assert_eq!(ZedExtension::normalize_name("Catppuccin"), "catppuccin.json");
    assert_eq!(ZedExtension::make_manifest_glob("Rosé Pine"), "**/*rose-pine*/extension.toml");
    assert_eq!(ZedExtension::make_themefile_glob("Rosé Pine"), "**/*rose-pine*.json");
    assert_eq!(ZedExtension::build_official_path("rose-pine", "/ext"), "/ext/rose-pine");
}

#[test]
fn zed_extension_from_one_vscode_theme() {
    let theme = vscode_theme("Rosé Pine Moon", "dark", "#232136", "#e0def4");
    let ext = ZedExtension::from_vscode_theme(&theme, "/zed/extensions/installed");
    assert_eq!(ext.name, "Rosé Pine Moon");
    assert_eq!(ext.directory, "/zed/extensions/installed/rose-pine-moon");
    assert_eq!(ext.families.len(), 1);
    assert_eq!(ext.families[0].themes.len(), 1);
    assert_eq!(ext.families[0].themes[0].name, "Rosé Pine Moon");
    assert_eq!(ext.metadata.id(), "rose-pine-moon");
    assert_eq!(ext.metadata.themes(), &["./themes/rose-pine-moon.json".to_string()]);
}

#[test]
fn vscode_extension_from_zed_family() {
    let family = catppuccin_family();
    let ext = VsCodeExtension::from_zed_family(&family);
    assert_eq!(ext.name, "Catppuccin");
    assert_eq!(ext.directory, ".vscode/extensions/catppuccin");
    assert_eq!(ext.themes.len(), 4);
    assert_eq!(ext.themes[0].name, "Catppuccin Latte");
    assert_eq!(ext.themes[0].theme_type.as_deref(), Some("light"));
    assert_eq!(ext.themes[3].theme_type.as_deref(), Some("dark"));
}

#[test]
fn theme_dir_official_path() {
    assert_eq!(
        ThemeDirExtension::official_path_for("rose-pine-moon", "/ext"),
        "/ext/rose-pine-moon/rose-pine-moon-color-theme.json"
    );
}
