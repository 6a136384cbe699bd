//! How extensions are found, built from loose files, and written out.

use thematic::editors::globbing::paths_matching;
use thematic::editors::layout::{extension_root, manifest_beside_themes};
use thematic::editors::vscode::extension::VsCodeExtension;
use thematic::editors::vscode::icon_theme::{IconDefinition, VsCodeIconTheme};
use thematic::editors::vscode::theme::VsCodeTheme;
use thematic::editors::zed::extension::ZedExtension;
use thematic::editors::zed::icon_theme::{DirectoryIcons, FileIcon, ZedIconTheme};
use thematic::editors::zed::theme::{Appearance, ZedTheme, ZedThemeFamily, ZedThemeStyle};
use thematic::errors::ThemeError;
use thematic::icon_files::IconFileManager;
use thematic::order::sort_by_key;
use thematic::strmap::StrMap;
use thematic::themes::VsCodeExtension as ThemeDirExtension;

fn theme(name: &str, kind: &str) -> VsCodeTheme {
    let mut t = VsCodeTheme::new(name.to_string());
    t.theme_type = Some(kind.to_string());
    t
}

fn family(name: &str, themes: &[(&str, Appearance)]) -> ZedThemeFamily {
    ZedThemeFamily {
        schema: None,
        author: "Someone".to_string(),
        name: name.to_string(),
        themes: themes
            .iter()
            .map(|(n, a)| ZedTheme { name: n.to_string(), appearance: *a, style: ZedThemeStyle::default() })
            .collect(),
    }
}

#[test]
fn loose_theme_files_are_picked_by_name() {
    assert!(VsCodeExtension::is_loose_theme_file("/x/themes/rose-pine-moon.json", "rose-pine"));
    assert!(!VsCodeExtension::is_loose_theme_file("/x/themes/rose-pine-icon-theme.json", "rose-pine"));
    assert!(!VsCodeExtension::is_loose_theme_file("/x/themes/rose-pine.txt", "rose-pine"));
    assert!(!VsCodeExtension::is_loose_theme_file("/x/themes/other.json", "rose-pine"));
}

#[test]
fn no_loose_themes_is_an_error() {
    match VsCodeExtension::from_loose_themes("/x/themes/a.json".to_string(), "a", Vec::new()) {
        Err(ThemeError::NoThemesFound(p)) => assert_eq!(p, "/x/themes/a.json"),
        other => panic!("expected no themes found, got {other:?}"),
    }
}

#[test]
fn loose_themes_make_an_extension() {
    let themes = vec![theme("Rosé Pine Moon", "dark"), theme("Rosé Pine", "dark"), theme("Rosé Pine Dawn", "light")];
    let ext = VsCodeExtension::from_loose_themes("/x/themes/rose-pine.json".to_string(), "rose-pine", themes)
        .expect("there are themes");
    assert_eq!(ext.name, "rose-pine");
    assert_eq!(ext.directory, "/x/themes/rose-pine.json");
    let names: Vec<&str> = ext.themes.iter().map(|t| t.name.as_str()).collect();
    assert_eq!(names, vec!["Rosé Pine", "Rosé Pine Dawn", "Rosé Pine Moon"]);
    assert_eq!(ext.manifest.display_name, "Rosé Pine");
    assert_eq!(ext.manifest.name, "rose-pine");
    assert_eq!(ext.manifest.publisher, "none");
    assert_eq!(ext.manifest.repository.url, "");
    let labels: Vec<&str> = ext.manifest.contributes.themes.iter().map(|p| p.label.as_str()).collect();
    assert_eq!(labels, vec!["rose-pine", "rose-pine-dawn", "rose-pine-moon"]);
    assert_eq!(ext.manifest.contributes.themes[1].ui_theme, "vs");
    assert_eq!(ext.manifest.contributes.themes[2].path, "./themes/rose-pine-moon.json");
}

#[test]
fn vscode_name_globs() {
    assert_eq!(VsCodeExtension::bare_name("rose-pine.json"), "rose-pine");
    assert_eq!(VsCodeExtension::theme_file_glob("rose-pine.json", "/ext"), "/ext/**/themes/rose-pine*.json");
    assert_eq!(VsCodeExtension::manifest_glob("rose-pine", "/ext"), "/ext/*rose-pine*/package.json");
    assert_eq!(VsCodeExtension::theme_file_name("Rosé Pine Moon"), "rose-pine-moon.json");
}

#[test]
fn vscode_icon_theme_labels() {
    let zed = family("Catppuccin", &[("Catppuccin Mocha", Appearance::Dark)]);
    let ext = VsCodeExtension::from_zed_family(&zed);
    assert_eq!(ext.icon_theme_label_at(0), "Icon Theme");
    assert!(ext.lists_themes());
}

#[test]
fn zed_directory_names_match() {
    assert!(ZedExtension::dir_matches_name("rose-pine-theme", "Rosé Pine.json"));
    assert!(ZedExtension::dir_matches_name("catppuccin", "catppuccin"));
    assert!(!ZedExtension::dir_matches_name("tokyo-night", "catppuccin"));
    assert_eq!(ZedExtension::manifests_glob("/ext"), "/ext/*/extension.toml");
    assert_eq!(ZedExtension::family_file_glob("Rosé Pine", "/ext"), "/ext/**/rose-pine.json");
}

#[test]
fn zed_extension_from_a_family_file() {
    let fam = family("Rosé Pine", &[("Rosé Pine", Appearance::Dark), ("Rosé Pine Dawn", Appearance::Light)]);
    let paths = vec!["/x/icon_themes/rose-pine-icons.json".to_string()];
    let icons = vec![ZedIconTheme {
        name: "Rosé Pine Icons".to_string(),
        appearance: "dark".to_string(),
        directory_icons: None,
        file_stems: None,
        file_suffixes: None,
        file_icons: None,
    }];
    let ext = ZedExtension::from_family_file("/x/themes/rose-pine.json".to_string(), "rose-pine", fam, &paths, icons);
    assert_eq!(ext.name, "Rosé Pine");
    assert_eq!(ext.metadata.id, "rose-pine");
    assert_eq!(ext.metadata.version, "0.1.0");
    assert_eq!(ext.metadata.themes, vec!["./themes/rose-pine.json".to_string()]);
    assert_eq!(ext.metadata.icon_themes, vec!["./icon_themes/rose-pine-icons.json".to_string()]);
    assert_eq!(ext.themes().len(), 2);
    assert_eq!(ext.icon_themes().len(), 1);
    assert!(ext.manifest().lists_themes());
    assert_eq!(ext.icon_source_dir(), "/x/themes/rose-pine.json");
}

#[test]
fn icon_families_name_the_first_author() {
    let theme = VsCodeTheme::new("Moon".to_string());
    let mut ext = ZedExtension::from_vscode_theme(&theme, "/z");
    let icons = ZedIconTheme {
        name: "Icons".to_string(),
        appearance: "dark".to_string(),
        directory_icons: None,
        file_stems: None,
        file_suffixes: None,
        file_icons: None,
    };
    let fam = ext.icon_family_for(icons);
    assert_eq!(fam.author, "Unknown");
    assert_eq!(fam.name, "Icons");
    assert_eq!(fam.schema.as_deref(), Some("https://zed.dev/schema/icon_themes/v0.2.0.json"));
    ext.metadata.authors.push("Ada".to_string());
    let again = ZedIconTheme {
        name: "Icons".to_string(),
        appearance: "dark".to_string(),
        directory_icons: None,
        file_stems: None,
        file_suffixes: None,
        file_icons: None,
    };
    assert_eq!(ext.icon_family_for(again).author, "Ada");
}

#[test]
fn relocated_icons_point_into_the_icon_directory() {
    let manager = IconFileManager::new("/src", "/dest", "icons");
    let mut files = StrMap::new();
    files.insert("rust".to_string(), FileIcon { path: "./assets/rust.svg".to_string() });
    let zed = ZedIconTheme {
        name: "Z".to_string(),
        appearance: "dark".to_string(),
        directory_icons: Some(DirectoryIcons {
            collapsed: "assets\\\\folder.svg".to_string(),
            expanded: "deep/a/open.svg".to_string(),
        }),
        file_stems: None,
        file_suffixes: None,
        file_icons: Some(files),
    };
    let moved = zed.with_relocated_icons(&manager);
    let dirs = moved.directory_icons.as_ref().unwrap();
    assert_eq!(dirs.collapsed, "./icons/folder.svg");
    assert_eq!(dirs.expanded, "./icons/open.svg");
    assert_eq!(moved.file_icons.as_ref().unwrap().get("rust").unwrap().path, "./icons/rust.svg");

    let mut defs = StrMap::new();
    defs.insert(
        "_file".to_string(),
        IconDefinition { icon_path: Some("./x/y/file.svg".to_string()), font_color: None, font_size: None, font_character: None, font_id: None },
    );
    let vs = VsCodeIconTheme {
        icon_definitions: Some(defs),
        file: None,
        folder: None,
        folder_expanded: None,
        root_folder: None,
        root_folder_expanded: None,
        file_names: None,
        file_extensions: None,
        folder_names: None,
        folder_names_expanded: None,
        language_ids: None,
        hides_explorer_arrows: None,
        show_language_mode_icons: None,
        source_path: None,
    };
    let moved = vs.with_relocated_icons(&manager);
    assert_eq!(moved.icon_definitions.unwrap().get("_file").unwrap().icon_path.as_deref(), Some("./icons/file.svg"));
}

#[test]
fn relocation_mapping_covers_every_path() {
    let manager = IconFileManager::new("/src", "/dest", "img");
    let paths = vec!["./a/b.svg".to_string(), "c.png".to_string()];
    let mapping = manager.relocation_mapping(&paths);
    assert_eq!(mapping.len(), 2);
    assert_eq!(mapping.get("./a/b.svg"), Some(&"./img/b.svg".to_string()));
    assert_eq!(mapping.get("c.png"), Some(&"./img/c.png".to_string()));
}

#[test]
fn themes_sort_by_name() {
    let sorted = sort_by_key(vec![theme("b", "dark"), theme("a", "dark"), theme("B", "light"), theme("a", "light")]);
    let names: Vec<(&str, Option<&str>)> = sorted.iter().map(|t| (t.name.as_str(), t.theme_type.as_deref())).collect();
    assert_eq!(names, vec![("B", Some("light")), ("a", Some("dark")), ("a", Some("light")), ("b", Some("dark"))]);
}

#[test]
fn theme_dir_conversions_from_zed() {
    let fam = family("Rosé Pine", &[("Rosé Pine Moon", Appearance::Dark)]);
    let ext = ThemeDirExtension::from_zed_family(&fam);
    assert_eq!(ext.name(), "Rosé Pine");
    assert_eq!(ext.directory(), ".vscode/extensions/rose-pine/rose-pine-color-theme.json");
    assert_eq!(ext.themes().len(), 1);
    assert_eq!(ext.themes()[0].theme_type.as_deref(), Some("dark"));

    let zed = ZedExtension::from_vscode_theme(&theme("Moon", "light"), "/z");
    let ext = ThemeDirExtension::from_zed_extension(&zed, "/v");
    assert_eq!(ext.directory(), "/v/Moon/Moon-color-theme.json");
    assert_eq!(ext.themes().len(), 1);
    assert_eq!(ext.themes()[0].theme_type.as_deref(), Some("light"));
}

#[test]
fn every_vscode_theme_lands_in_a_zed_family() {
    let themes = vec![
        theme("Rosé Pine", "dark"),
        theme("Rosé Pine Moon", "dark"),
        theme("Rosé Pine Dawn", "light"),
        theme("Rosé Pine (no italics)", "dark"),
        theme("Rosé Pine Moon", "light"),
    ];
    let names: Vec<String> = themes.iter().map(|t| t.name.clone()).collect();
    let ext = VsCodeExtension::new("Rosé Pine", "rose-pine", themes);
    let zed = ZedExtension::from_vscode_extension(&ext, "/z");
    let converted: Vec<(String, Appearance)> =
        zed.families.iter().flat_map(|f| f.themes.iter().map(|t| (t.name.clone(), t.appearance))).collect();
    for name in &names {
        assert!(converted.iter().any(|(n, _)| n == name), "{name} should be converted");
    }
    // Two themes share a name: the last of them is the one converted, once.
    let moons: Vec<&(String, Appearance)> = converted.iter().filter(|(n, _)| n == "Rosé Pine Moon").collect();
    assert_eq!(moons.len(), 1);
    assert_eq!(moons[0].1, Appearance::Light);
    assert_eq!(converted.len(), 4);
}

#[test]
fn globs_pick_out_matching_paths_in_order() {
    let paths: Vec<Vec<u8>> =
        ["ext/a/extension.toml", "ext/a/themes/a.json", "ext/b/extension.toml"].iter().map(|p| p.as_bytes().to_vec()).collect();
    let matched = paths_matching("**/extension.toml", paths);
    assert_eq!(matched, vec![b"ext/a/extension.toml".to_vec(), b"ext/b/extension.toml".to_vec()]);
}

#[test]
fn extension_layout_from_found_paths() {
    assert_eq!(extension_root("ext/rose/themes/rose.json", false, false), "ext/rose");
    assert_eq!(extension_root("ext/rose/package.json", false, false), "ext/rose");
    assert_eq!(extension_root("ext/rose/icon_themes", true, true), "ext/rose");
    assert_eq!(extension_root("ext/rose/icon_themes", true, false), "ext/rose/icon_themes");
    assert_eq!(manifest_beside_themes("ext/rose/themes/rose.json"), "ext/rose/extension.toml");
}
