//! Installed Zed extensions, theme directory paths, and theme values.

use thematic::editors::vscode::theme::VsCodeTheme;
use thematic::editors::zed::extension::ZedExtension;
use thematic::editors::zed::icon_theme::ZedIconTheme;
use thematic::editors::zed::installed::{index_path, InstalledExtensions, ZedThemeIndex};
use thematic::editors::zed::theme::{Appearance, ZedTheme, ZedThemeStyle};
use thematic::strmap::StrMap;
use thematic::themes::json_file::{ensure_json_extension, json_path_for};
use thematic::themes::VsCodeExtension as ThemeDirExtension;

fn empty_index() -> InstalledExtensions {
    InstalledExtensions { extensions: StrMap::new(), themes: StrMap::new(), icon_themes: StrMap::new(), other: Vec::new() }
}

#[test]
fn test_add_extension() {
    let installed = empty_index();
    assert_eq!(installed.extensions.len(), 0);
    assert_eq!(installed.themes.len(), 0);
    assert_eq!(installed.icon_themes.len(), 0);
}

#[test]
fn adding_an_extension_points_at_its_theme_files() {
    let mut theme = VsCodeTheme::new("Rosé Pine Moon".to_string());
    theme.theme_type = Some("dark".to_string());
    let mut ext = ZedExtension::from_vscode_theme(&theme, "/zed/extensions/installed");
    ext.icon_themes.push(ZedIconTheme {
        name: "Rosé Pine Icons".to_string(),
        appearance: "dark".to_string(),
        directory_icons: None,
        file_stems: None,
        file_suffixes: None,
        file_icons: None,
    });
    ext.metadata.icon_themes.push("./icon_themes/rose-pine-icons.json".to_string());
    ext.icon_themes.push(ZedIconTheme {
        name: "Unlisted Icons".to_string(),
        appearance: "dark".to_string(),
        directory_icons: None,
        file_stems: None,
        file_suffixes: None,
        file_icons: None,
    });

    let mut installed = empty_index();
    installed.themes.insert(
        "Old Theme".to_string(),
        ZedThemeIndex { extension: "old".to_string(), path: "themes/old.json".to_string() },
    );
    installed.add_extension(&ext);

    assert_eq!(installed.extensions.len(), 1);
    let wrapper = installed.extensions.get("rose-pine-moon").expect("the extension is recorded under its id");
    assert!(wrapper.dev);
    assert_eq!(wrapper.manifest.name, "Rosé Pine Moon");

    assert_eq!(installed.themes.len(), 2);
    let ptr = installed.themes.get("Rosé Pine Moon").expect("the theme points at its file");
    assert_eq!(ptr.extension, "rose-pine-moon");
    assert_eq!(ptr.path, "./themes/rose-pine-moon.json");
    assert!(installed.themes.get("Old Theme").is_some());

    assert_eq!(installed.icon_themes.len(), 1);
    let icons = installed.icon_themes.get("Rosé Pine Icons").expect("the icon theme points at its file");
    assert_eq!(icons.path, "./icon_themes/rose-pine-icons.json");
    assert!(installed.icon_themes.get("Unlisted Icons").is_none());
}

#[test]
fn test_ensure_json_extension_already_has_json() {
    assert_eq!(ensure_json_extension("theme.json"), "theme.json");
}

#[test]
fn test_ensure_json_extension_no_extension() {
    assert_eq!(ensure_json_extension("theme"), "theme.json");
}

#[test]
fn test_ensure_json_extension_different_extension() {
    assert_eq!(ensure_json_extension("theme.txt"), "theme.txt.json");
}

#[test]
fn test_ensure_json_extension_with_path() {
    assert_eq!(ensure_json_extension("path/to/theme"), "path/to/theme.json");
}

#[test]
fn test_ensure_json_extension_complex_path() {
    assert_eq!(ensure_json_extension("../themes/my-theme"), "../themes/my-theme.json");
}

#[test]
fn json_path_for_each_case() {
    assert_eq!(json_path_for("theme.txt", true, &Some("txt".to_string())), Some("theme.txt".to_string()));
    assert_eq!(json_path_for("theme.json", false, &Some("json".to_string())), Some("theme.json".to_string()));
    assert_eq!(json_path_for("theme.txt", false, &Some("txt".to_string())), Some("theme.txt.json".to_string()));
    assert_eq!(json_path_for("theme", false, &None), None);
    assert_eq!(json_path_for("theme", true, &None), Some("theme".to_string()));
}

#[test]
fn test_zed_theme_creation() {
    let mut style = ZedThemeStyle::default();
    style.background = Some("#000000".to_string());
    style.text = Some("#ffffff".to_string());
    let theme = ZedTheme { name: "Test Theme".to_string(), appearance: Appearance::Dark, style };
    assert_eq!(theme.name, "Test Theme");
    assert!(matches!(theme.appearance, Appearance::Dark));
}

#[test]
fn the_index_lies_beside_the_installed_extensions() {
    assert_eq!(index_path("/home/a/.config/zed/extensions/installed"), "/home/a/.config/zed/extensions/index.json");
    assert_eq!(index_path("/home/a/.config/zed/extensions"), "/home/a/.config/zed/extensions/index.json");
    assert_eq!(index_path("/home/a/.config/zed/extensions/index.json"), "/home/a/.config/zed/extensions/index.json");
}

#[test]
fn a_theme_file_outside_a_themes_directory_is_no_extension() {
    assert!(!ThemeDirExtension::dir_is_extension("/no/such/place/themes/x.json"));
    assert!(!ThemeDirExtension::dir_is_extension("x.json"));
}

#[test]
fn index_path_leaves_other_paths_alone() {
    assert_eq!(index_path("/home/a/themes"), "/home/a/themes");
    assert_eq!(index_path("relative/dir"), "relative/dir");
}

#[test]
fn ensure_json_extension_on_names_with_dots() {
    assert_eq!(ensure_json_extension("no/such/dir/theme.JSON"), "no/such/dir/theme.JSON.json");
    assert_eq!(ensure_json_extension("no/such/dir/.hidden"), "no/such/dir/.hidden.json");
}

#[test]
fn an_installed_extension_keeps_its_whole_manifest() {
    let theme = VsCodeTheme::new("Plain".to_string());
    let mut ext = ZedExtension::from_vscode_theme(&theme, "/zed/extensions/installed");
    ext.metadata.languages.push("languages/plain".to_string());
    ext.metadata.capabilities.push("process:exec".to_string());
    ext.metadata.lib.kind = Some("Rust".to_string());
    let mut installed = empty_index();
    installed.add_extension(&ext);
    let stored = installed.extensions.get("plain").expect("stored under its id");
    assert!(stored.dev);
    assert_eq!(stored.manifest.languages, vec!["languages/plain".to_string()]);
    assert_eq!(stored.manifest.capabilities, vec!["process:exec".to_string()]);
    assert_eq!(stored.manifest.lib.kind.as_deref(), Some("Rust"));
    assert_eq!(stored.manifest.language_servers, ext.metadata.language_servers);
}

#[test]
fn index_path_on_plain_paths() {
    assert_eq!(index_path("zed/extensions/installed"), "zed/extensions/index.json");
    assert_eq!(index_path("zed/extensions"), "zed/extensions/index.json");
    assert_eq!(index_path("zed/other/installed"), "zed/other");
}
