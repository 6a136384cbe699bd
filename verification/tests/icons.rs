//! Icon themes of both editors, their conversion, and the icon file manager.

use thematic::editors::vscode::icon_theme::{IconDefinition, VsCodeIconTheme};
use thematic::editors::zed::icon_theme::{DirectoryIcons, FileIcon, ZedIconTheme, ZedIconThemeFamily};
use thematic::icon_files::utils::{get_file_extension, is_icon_file, sanitize_filename};
use thematic::icon_files::IconFileManager;
use thematic::strmap::StrMap;

fn icon_definition(path: &str) -> IconDefinition {
    IconDefinition { icon_path: Some(path.to_string()), font_color: None, font_size: None, font_character: None, font_id: None }
}

fn empty_vscode_icon_theme() -> VsCodeIconTheme {
    VsCodeIconTheme {
        icon_definitions: None,
        file: None,
        folder: None,
        folder_expanded: None,
        root_folder: None,
        root_folder_expanded: None,
        file_names: None,
        file_extensions: None,
        folder_names: None,
        folder_names_expanded: None,
        language_ids: None,
        hides_explorer_arrows: None,
        show_language_mode_icons: None,
        source_path: None,
    }
}

fn string_map(entries: &[(&str, &str)]) -> StrMap<String> {
    let mut map = StrMap::new();
    for (k, v) in entries {
        map.insert(k.to_string(), v.to_string());
    }
    map
}

fn file_icon_map(entries: &[(&str, &str)]) -> StrMap<FileIcon> {
    let mut map = StrMap::new();
    for (k, v) in entries {
        map.insert(k.to_string(), FileIcon { path: v.to_string() });
    }
    map
}

#[test]
fn icon_theme_can_get_icon_paths() {
    // The VSCode icon theme lists the paths of its icon definitions.
    let mut icon_definitions = StrMap::new();
    icon_definitions.insert("_file".to_string(), icon_definition("./icons/file.svg"));
    icon_definitions.insert("_folder".to_string(), icon_definition("./icons/folder.svg"));
    let mut theme = empty_vscode_icon_theme();
    theme.icon_definitions = Some(icon_definitions);
    let paths = theme.get_icon_paths();
    assert_eq!(paths.len(), 2);
    assert!(paths.contains(&"./icons/file.svg".to_string()));
    assert!(paths.contains(&"./icons/folder.svg".to_string()));

    // The Zed icon theme lists its file icons and both directory icons.
    let theme = ZedIconTheme {
        name: "Test Theme".to_string(),
        appearance: "dark".to_string(),
        directory_icons: Some(DirectoryIcons {
            collapsed: "./icons/folder.svg".to_string(),
            expanded: "./icons/folder-open.svg".to_string(),
        }),
        file_stems: None,
        file_suffixes: None,
        file_icons: Some(file_icon_map(&[("default", "./icons/file.svg")])),
    };
    let paths = theme.get_icon_paths();
    assert_eq!(paths.len(), 3);
    assert!(paths.contains(&"./icons/file.svg".to_string()));
    assert!(paths.contains(&"./icons/folder.svg".to_string()));
    assert!(paths.contains(&"./icons/folder-open.svg".to_string()));
}

#[test]
fn test_zed_to_vscode_conversion() {
    let zed_theme = ZedIconTheme {
        name: "Test Zed Theme".to_string(),
        appearance: "dark".to_string(),
        directory_icons: Some(DirectoryIcons {
            collapsed: "./icons/folder.svg".to_string(),
            expanded: "./icons/folder-open.svg".to_string(),
        }),
        file_stems: Some(string_map(&[("README.md", "special")])),
        file_suffixes: Some(string_map(&[("js", "code"), ("ts", "code")])),
        file_icons: Some(file_icon_map(&[("code", "./icons/file.svg"), ("special", "./icons/file-special.svg")])),
    };

    let vscode_theme = VsCodeIconTheme::from_zed(&zed_theme);

    let icon_definitions = vscode_theme.icon_definitions.expect("Should have icon definitions");
    assert!(icon_definitions.contains_key("_code"));
    assert!(icon_definitions.contains_key("_special"));
    assert_eq!(icon_definitions.get("_code").unwrap().icon_path, Some("./icons/file.svg".to_string()));
    assert_eq!(icon_definitions.get("_special").unwrap().icon_path, Some("./icons/file-special.svg".to_string()));

    assert!(icon_definitions.contains_key("_folder"));
    assert!(icon_definitions.contains_key("_folder-open"));
    assert_eq!(icon_definitions.get("_folder").unwrap().icon_path, Some("./icons/folder.svg".to_string()));
    assert_eq!(icon_definitions.get("_folder-open").unwrap().icon_path, Some("./icons/folder-open.svg".to_string()));

    assert_eq!(vscode_theme.folder, Some("_folder".to_string()));
    assert_eq!(vscode_theme.folder_expanded, Some("_folder-open".to_string()));

    let file_extensions = vscode_theme.file_extensions.expect("Should have file extensions");
    assert_eq!(file_extensions.get("js"), Some(&"_code".to_string()));
    assert_eq!(file_extensions.get("ts"), Some(&"_code".to_string()));

    let file_names = vscode_theme.file_names.expect("Should have file names");
    assert_eq!(file_names.get("README.md"), Some(&"_special".to_string()));
}

#[test]
fn test_zed_family_to_vscode_themes_conversion() {
    let theme_1 = ZedIconTheme {
        name: "Dark Theme".to_string(),
        appearance: "dark".to_string(),
        directory_icons: Some(DirectoryIcons {
            collapsed: "./icons/folder.svg".to_string(),
            expanded: "./icons/folder-open.svg".to_string(),
        }),
        file_stems: None,
        file_suffixes: Some(string_map(&[("js", "code")])),
        file_icons: Some(file_icon_map(&[("code", "./icons/file.svg")])),
    };
    let theme_2 = ZedIconTheme {
        name: "Light Theme".to_string(),
        appearance: "light".to_string(),
        directory_icons: Some(DirectoryIcons {
            collapsed: "./icons/folder-light.svg".to_string(),
            expanded: "./icons/folder-open-light.svg".to_string(),
        }),
        file_stems: None,
        file_suffixes: Some(string_map(&[("txt", "text")])),
        file_icons: Some(file_icon_map(&[("text", "./icons/text.svg")])),
    };
    let zed_family = ZedIconThemeFamily {
        schema: Some("https://zed.dev/schema/icon_themes/v0.2.0.json".to_string()),
        name: "Test Family".to_string(),
        author: "Test Author".to_string(),
        themes: vec![theme_1, theme_2],
        source_path: None,
    };

    let vscode_themes = VsCodeIconTheme::from_zed_family(&zed_family);
    assert_eq!(vscode_themes.len(), 2);

    let theme_1_vscode = &vscode_themes[0];
    let icon_defs_1 = theme_1_vscode.icon_definitions.as_ref().unwrap();
    assert!(icon_defs_1.contains_key("_code"));
    assert!(icon_defs_1.contains_key("_folder"));
    let file_exts_1 = theme_1_vscode.file_extensions.as_ref().unwrap();
    assert_eq!(file_exts_1.get("js"), Some(&"_code".to_string()));

    let theme_2_vscode = &vscode_themes[1];
    let icon_defs_2 = theme_2_vscode.icon_definitions.as_ref().unwrap();
    assert!(icon_defs_2.contains_key("_text"));
    assert!(icon_defs_2.contains_key("_folder"));
    let file_exts_2 = theme_2_vscode.file_extensions.as_ref().unwrap();
    assert_eq!(file_exts_2.get("txt"), Some(&"_text".to_string()));
}

#[test]
fn test_vscode_to_zed_conversion() {
    let mut icon_definitions = StrMap::new();
    icon_definitions.insert("_file".to_string(), icon_definition("./icons/file.svg"));
    icon_definitions.insert("_folder".to_string(), icon_definition("./icons/folder.svg"));
    icon_definitions.insert("_folder-open".to_string(), icon_definition("./icons/folder-open.svg"));
    let mut vscode_theme = empty_vscode_icon_theme();
    vscode_theme.icon_definitions = Some(icon_definitions);
    vscode_theme.file = Some("_file".to_string());
    vscode_theme.folder = Some("_folder".to_string());
    vscode_theme.folder_expanded = Some("_folder-open".to_string());
    vscode_theme.file_names = Some(string_map(&[("README.md", "_file")]));
    vscode_theme.file_extensions = Some(string_map(&[("js", "_file"), ("ts", "_file")]));

    let zed_theme = ZedIconTheme::from_vscode(&vscode_theme);

    assert_eq!(zed_theme.name, "Converted Icon Theme");
    assert_eq!(zed_theme.appearance, "dark");

    let dir_icons = zed_theme.directory_icons.expect("Should have directory icons");
    assert_eq!(dir_icons.collapsed, "./icons/folder.svg");
    assert_eq!(dir_icons.expanded, "./icons/folder-open.svg");

    let file_suffixes = zed_theme.file_suffixes.expect("Should have file suffixes");
    assert_eq!(file_suffixes.get("js"), Some(&"_file".to_string()));
    assert_eq!(file_suffixes.get("ts"), Some(&"_file".to_string()));

    let file_stems = zed_theme.file_stems.expect("Should have file stems");
    assert_eq!(file_stems.get("README.md"), Some(&"_file".to_string()));

    let file_icons = zed_theme.file_icons.expect("Should have file icons");
    assert!(file_icons.contains_key("file"));
    assert_eq!(file_icons.get("file").unwrap().path, "./icons/file.svg");
}

#[test]
fn test_get_relative_path() {
    let manager = IconFileManager::new("/tmp/source", "/tmp/dest", "icons");
    let relative_path = manager.get_relative_path("file.svg");
    assert_eq!(relative_path, "./icons/file.svg");
}

#[test]
fn test_extract_filename() {
    assert_eq!(IconFileManager::extract_filename("./icons/file.svg"), Some("file.svg".to_string()));
    assert_eq!(IconFileManager::extract_filename("icons/file.svg"), Some("file.svg".to_string()));
    assert_eq!(IconFileManager::extract_filename("file.svg"), Some("file.svg".to_string()));
    assert_eq!(IconFileManager::extract_filename("./folder/subfolder/icon.png"), Some("icon.png".to_string()));
    assert_eq!(IconFileManager::extract_filename("C:\\icons\\file.svg"), Some("file.svg".to_string()));
}

#[test]
fn test_utils_is_icon_file() {
    assert!(is_icon_file("test.svg"));
    assert!(is_icon_file("test.png"));
    assert!(is_icon_file("test.jpg"));
    assert!(is_icon_file("test.jpeg"));
    assert!(is_icon_file("test.gif"));
    assert!(is_icon_file("test.webp"));
    assert!(is_icon_file("test.ico"));
    assert!(is_icon_file("TEST.SVG"));

    assert!(!is_icon_file("test.txt"));
    assert!(!is_icon_file("test.json"));
    assert!(!is_icon_file("test"));
}

#[test]
fn test_utils_sanitize_filename() {
    assert_eq!(sanitize_filename("normal-file.svg"), "normal-file.svg");
    assert_eq!(sanitize_filename("file<with>bad:chars.svg"), "file_with_bad_chars.svg");
    assert_eq!(sanitize_filename("  .file.svg.  "), "file.svg");
    assert_eq!(sanitize_filename("file/with\\slashes.svg"), "file_with_slashes.svg");
}

#[test]
fn test_path_to_name_mapping() {
    let mut manager = IconFileManager::new("/tmp/source", "/tmp/dest", "icons");
    manager.track_icon("test".to_string(), "test-icon.svg");
    let mapping = manager.create_path_to_name_mapping();
    assert_eq!(mapping.get("./icons/test-icon.svg"), Some(&"test".to_string()));
}

#[test]
fn file_extensions_are_lowercased() {
    assert_eq!(get_file_extension("icon.SVG"), Some("svg".to_string()));
    assert_eq!(get_file_extension("archive.tar.gz"), Some("gz".to_string()));
    assert_eq!(get_file_extension("README"), None);
}

#[test]
fn tracked_icons_are_listed_once() {
    let mut manager = IconFileManager::new("/src", "/dest", "icons");
    manager.track_icon("a".to_string(), "a.svg");
    manager.track_icon("b".to_string(), "icons/b.svg");
    manager.track_icon("a".to_string(), "other.svg");
    let listed = manager.tracked_icons();
    assert_eq!(listed.len(), 2);
    assert!(manager.has_icon("a"));
    assert!(manager.has_icon("b"));
    assert!(!manager.has_icon("c"));
    assert_eq!(manager.get_source_path("a"), Some(&"/src/other.svg".to_string()));
    manager.track_icon_absolute("c".to_string(), "/abs/c.svg");
    assert_eq!(manager.get_source_path("c"), Some(&"/abs/c.svg".to_string()));
}

#[test]
fn updating_icon_paths_rewrites_definitions() {
    let mut icon_definitions = StrMap::new();
    icon_definitions.insert("_file".to_string(), icon_definition("./old/file.svg"));
    let mut theme = empty_vscode_icon_theme();
    theme.icon_definitions = Some(icon_definitions);
    let mapping = string_map(&[("./old/file.svg", "./icons/file.svg")]);
    theme.update_icon_paths(&mapping);
    let defs = theme.icon_definitions.as_ref().unwrap();
    assert_eq!(defs.get("_file").unwrap().icon_path, Some("./icons/file.svg".to_string()));

    let mut zed = ZedIconTheme {
        name: "Z".to_string(),
        appearance: "dark".to_string(),
        directory_icons: Some(DirectoryIcons { collapsed: "./old/folder.svg".to_string(), expanded: "./keep.svg".to_string() }),
        file_stems: None,
        file_suffixes: None,
        file_icons: Some(file_icon_map(&[("default", "./old/file.svg")])),
    };
    let mapping = string_map(&[("./old/file.svg", "./icons/file.svg"), ("./old/folder.svg", "./icons/folder.svg")]);
    zed.update_icon_paths(&mapping);
    let dirs = zed.directory_icons.as_ref().unwrap();
    assert_eq!(dirs.collapsed, "./icons/folder.svg");
    assert_eq!(dirs.expanded, "./keep.svg");
    assert_eq!(zed.file_icons.as_ref().unwrap().get("default").unwrap().path, "./icons/file.svg");
}

#[test]
fn icon_round_trip_keeps_directory_and_file_icons() {
    let zed = ZedIconTheme {
        name: "Round".to_string(),
        appearance: "light".to_string(),
        directory_icons: Some(DirectoryIcons { collapsed: "./icons/c.svg".to_string(), expanded: "./icons/e.svg".to_string() }),
        file_stems: None,
        file_suffixes: Some(string_map(&[("rs", "rust")])),
        file_icons: Some(file_icon_map(&[("rust", "./icons/rust.svg"), ("folder", "./icons/lost.svg"), ("default", "./icons/file.svg")])),
    };
    let back = ZedIconTheme::from_vscode(&VsCodeIconTheme::from_zed(&zed));
    let dirs = back.directory_icons.as_ref().expect("directory icons survive");
    assert_eq!(dirs.collapsed, "./icons/c.svg");
    assert_eq!(dirs.expanded, "./icons/e.svg");
    let icons = back.file_icons.as_ref().expect("file icons survive");
    assert_eq!(icons.len(), 2);
    assert_eq!(icons.get("rust").unwrap().path, "./icons/rust.svg");
    assert_eq!(icons.get("default").unwrap().path, "./icons/file.svg");
    assert!(icons.get("folder").is_none());
}

#[test]
fn file_extensions_of_plain_names() {
    assert_eq!(get_file_extension("icons/folder.PNG"), Some("png".to_string()));
    assert_eq!(get_file_extension(".hidden"), None);
    assert_eq!(get_file_extension("trailing."), Some(String::new()));
    assert!(is_icon_file("icons/folder.Svg"));
    assert!(!is_icon_file("icons/.svg"));
    assert!(!is_icon_file("notes.txt"));
}

#[test]
fn destination_paths_join_base_subdir_and_name() {
    let manager = IconFileManager::new("/src", "/out", "icons");
    assert_eq!(manager.dest_dir(), "/out/icons");
    assert_eq!(manager.get_dest_path("a.svg"), "/out/icons/a.svg");
    let slashed = IconFileManager::new("/src", "/out/", "icons");
    assert_eq!(slashed.dest_dir(), "/out/icons");
}

#[test]
fn every_plain_source_file_gets_a_relative_path() {
    let mut manager = IconFileManager::new("/src", "/out", "icons");
    manager.track_icon("one".to_string(), "nested/one.svg");
    manager.track_icon("two".to_string(), "two.png");
    manager.track_icon("again".to_string(), "other/one.svg");
    let mapping = manager.create_path_to_name_mapping();
    assert_eq!(mapping.len(), 2);
    assert_eq!(mapping.get("./icons/two.png"), Some(&"two".to_string()));
    assert_eq!(mapping.get("./icons/one.svg"), Some(&"again".to_string()));
}

#[test]
fn icon_theme_can_create_icon_manager() {
    let mut icon_definitions = StrMap::new();
    icon_definitions.insert("_file".to_string(), icon_definition("./icons/file.svg"));
    icon_definitions.insert("_folder".to_string(), icon_definition("./icons/folder.svg"));
    let mut theme = empty_vscode_icon_theme();
    theme.icon_definitions = Some(icon_definitions);
    theme.source_path = Some("/src/theme.json".to_string());
    let manager = theme.create_icon_manager("/dst", "icons").expect("a theme read from a file has a directory");
    let mut names = manager.tracked_icons();
    names.sort();
    assert_eq!(names, vec!["_file".to_string(), "_folder".to_string()]);
    assert_eq!(manager.get_source_path("_file"), Some(&"/src/./icons/file.svg".to_string()));
    assert_eq!(manager.get_dest_path("file.svg"), "/dst/icons/file.svg");

    theme.source_path = None;
    assert!(matches!(
        theme.create_icon_manager("/dst", "icons"),
        Err(thematic::errors::ThemeError::IconProcessingError(_))
    ));
    assert!(theme.icon_manager_from_base(None, "/dst", "icons").is_err());
    let from_base = theme.icon_manager_from_base(Some("/elsewhere".to_string()), "/dst", "icons").expect("a base is given");
    assert_eq!(from_base.get_source_path("_folder"), Some(&"/elsewhere/./icons/folder.svg".to_string()));
}

#[test]
fn zed_icon_theme_tracks_icons_under_the_source_base() {
    let theme = ZedIconTheme {
        name: "Test Theme".to_string(),
        appearance: "dark".to_string(),
        directory_icons: Some(DirectoryIcons {
            collapsed: "./icons/folder.svg".to_string(),
            expanded: "./icons/folder-open.svg".to_string(),
        }),
        file_stems: None,
        file_suffixes: None,
        file_icons: Some(file_icon_map(&[("default", "./icons/file.svg")])),
    };
    let mut manager = IconFileManager::new("/src", "/dst", "icons");
    assert!(theme.track_icons(&mut manager).is_ok());
    let mut names = manager.tracked_icons();
    names.sort();
    assert_eq!(names, vec!["default".to_string(), "directory_collapsed".to_string(), "directory_expanded".to_string()]);
    assert_eq!(manager.get_source_path("default"), Some(&"/src/./icons/file.svg".to_string()));
    assert_eq!(manager.get_source_path("directory_collapsed"), Some(&"/src/./icons/folder.svg".to_string()));

    let family = ZedIconThemeFamily {
        schema: None,
        name: "Family".to_string(),
        author: "Someone".to_string(),
        themes: vec![theme],
        source_path: Some("/themes/family.json".to_string()),
    };
    let family_manager = family.create_icon_manager("/dst", "icons").expect("the family file has a directory");
    assert_eq!(family_manager.get_source_path("default"), Some(&"/themes/./icons/file.svg".to_string()));
    assert!(family.icon_manager_from_base(None, "/dst", "icons").is_err());
}

#[test]
fn tracking_an_icon_joins_the_source_base() {
    let mut manager = IconFileManager::new("/tmp/source", "/tmp/dest", "icons");
    manager.track_icon("test".to_string(), "test-icon.svg");
    assert!(manager.has_icon("test"));
    assert_eq!(manager.tracked_icons(), vec!["test".to_string()]);
    assert_eq!(manager.get_source_path("test"), Some(&"/tmp/source/test-icon.svg".to_string()));
}

#[test]
fn tracking_if_present_follows_the_answer() {
    let mut manager = IconFileManager::new("/src", "/dst", "icons");
    manager.track_if_present("gone".to_string(), "/src/gone.svg", false);
    assert!(!manager.has_icon("gone"));
    manager.track_if_present("here".to_string(), "/src/here.svg", true);
    assert_eq!(manager.get_source_path("here"), Some(&"/src/here.svg".to_string()));
    manager.track_icon_with_base("missing".to_string(), "no/such/icon.svg", Some("/no/such/base"));
    assert!(!manager.has_icon("missing"));
}

#[test]
fn the_last_theme_of_a_family_wins_a_shared_name() {
    let first = ZedIconTheme {
        name: "First".to_string(),
        appearance: "dark".to_string(),
        directory_icons: None,
        file_stems: None,
        file_suffixes: None,
        file_icons: Some(file_icon_map(&[("default", "./icons/first.svg")])),
    };
    let second = ZedIconTheme {
        name: "Second".to_string(),
        appearance: "light".to_string(),
        directory_icons: None,
        file_stems: None,
        file_suffixes: None,
        file_icons: Some(file_icon_map(&[("default", "./icons/second.svg")])),
    };
    let family = ZedIconThemeFamily {
        schema: None,
        name: "Family".to_string(),
        author: "Someone".to_string(),
        themes: vec![first, second],
        source_path: Some("/themes/family.json".to_string()),
    };
    let manager = family.create_icon_manager("/dst", "icons").expect("the family file has a directory");
    assert_eq!(manager.get_source_path("default"), Some(&"/themes/./icons/second.svg".to_string()));
}
