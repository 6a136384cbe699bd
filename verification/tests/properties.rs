//! Properties the library promises, checked on concrete values.

use thematic::convert::code_to_zed::map_textmate_scope_to_zed;
use thematic::convert::color::HexColor;
use thematic::editors::vscode::icon_theme::{IconDefinition, VsCodeIconTheme};
use thematic::editors::vscode::theme::VsCodeTheme;
use thematic::editors::zed::icon_theme::{DirectoryIcons, FileIcon, ZedIconTheme, ZedIconThemeFamily};
use thematic::editors::zed::theme::{Appearance, ZedTheme, ZedThemeStyle};
use thematic::errors::ThemeError;
use thematic::icon_files::utils::sanitize_filename;
use thematic::order::sort_strings;
use thematic::strmap::StrMap;

fn icon_theme_with_source(source_path: Option<String>) -> VsCodeIconTheme {
    let mut defs = StrMap::new();
    defs.insert(
        "_file".to_string(),
        IconDefinition { icon_path: Some("./icons/file.svg".to_string()), font_color: None, font_size: None, font_character: None, font_id: None },
    );
    defs.insert(
        "_font".to_string(),
        IconDefinition { icon_path: None, font_color: None, font_size: None, font_character: Some("x".to_string()), font_id: None },
    );
    VsCodeIconTheme {
        icon_definitions: Some(defs),
        file: Some("_file".to_string()),
        folder: None,
        folder_expanded: None,
        root_folder: None,
        root_folder_expanded: None,
        file_names: None,
        file_extensions: None,
        folder_names: None,
        folder_names_expanded: None,
        language_ids: None,
        hides_explorer_arrows: None,
        show_language_mode_icons: None,
        source_path,
    }
}

#[test]
fn icon_manager_needs_a_source_path() {
    let theme = icon_theme_with_source(None);
    match theme.create_icon_manager("/dest", "icons") {
        Err(ThemeError::IconProcessingError(m)) => assert_eq!(m, "No source path available"),
        other => panic!("expected an icon processing error, got {other:?}"),
    }
}

#[test]
fn icon_manager_tracks_definitions_with_paths() {
    let theme = icon_theme_with_source(Some("/ext/icons/theme.json".to_string()));
    let manager = theme.create_icon_manager("/dest", "icons").expect("a source path is there");
    assert!(manager.has_icon("_file"));
    assert!(!manager.has_icon("_font"));
    assert_eq!(manager.get_source_path("_file"), Some(&"/ext/icons/./icons/file.svg".to_string()));
}

#[test]
fn zed_icon_manager_needs_a_source_path() {
    let mut icons = StrMap::new();
    icons.insert("default".to_string(), FileIcon { path: "./icons/file.svg".to_string() });
    let family = ZedIconThemeFamily {
        schema: None,
        name: "Icons".to_string(),
        author: "Someone".to_string(),
        themes: vec![ZedIconTheme {
            name: "Icons".to_string(),
            appearance: "dark".to_string(),
            directory_icons: Some(DirectoryIcons { collapsed: "./c.svg".to_string(), expanded: "./e.svg".to_string() }),
            file_stems: None,
            file_suffixes: None,
            file_icons: Some(icons),
        }],
        source_path: None,
    };
    assert!(matches!(family.create_icon_manager("/dest", "icons"), Err(ThemeError::IconProcessingError(_))));
}

#[test]
fn zed_round_trip_keeps_name_and_appearance() {
    for appearance in [Appearance::Dark, Appearance::Light] {
        let theme = ZedTheme { name: "Some Theme".to_string(), appearance, style: ZedThemeStyle::default() };
        let back = ZedTheme::from_vscode(&VsCodeTheme::from_zed(&theme));
        assert_eq!(back.name, theme.name);
        assert_eq!(back.appearance, theme.appearance);
    }
}

#[test]
fn vscode_round_trip_keeps_editor_colors() {
    let mut theme = VsCodeTheme::new("Round".to_string());
    theme.theme_type = Some("light".to_string());
    theme.set_color("editor.background".to_string(), "#faf4ed".to_string());
    theme.set_color("editor.foreground".to_string(), "#575279".to_string());
    let back = VsCodeTheme::from_zed(&ZedTheme::from_vscode(&theme));
    assert_eq!(back.name, "Round");
    assert!(back.is_light_theme());
    assert_eq!(back.get_color("editor.background"), Some("#faf4ed"));
    assert_eq!(back.get_color("editor.foreground"), Some("#575279"));
}

#[test]
fn alpha_colors_have_one_hash() {
    assert_eq!(HexColor::new("##abc").with_alpha("80"), "#abc80");
    assert_eq!(HexColor::new("").with_alpha("ff"), "#ff");
}

#[test]
fn sanitized_names_hold_no_bad_characters() {
    let out = sanitize_filename(" a<b>c:d\"e|f?g*h/i\\j. ");
    assert_eq!(out, "a_b_c_d_e_f_g_h_i_j");
    assert!(!out.chars().any(|c| "<>:\"|?*/\\".contains(c)));
}

#[test]
fn map_read_after_write() {
    let mut m: StrMap<String> = StrMap::new();
    m.insert("k".to_string(), "one".to_string());
    m.insert("j".to_string(), "two".to_string());
    m.insert("k".to_string(), "three".to_string());
    assert_eq!(m.len(), 2);
    assert_eq!(m.get("k"), Some(&"three".to_string()));
    assert_eq!(m.get("j"), Some(&"two".to_string()));
    assert_eq!(m.get("x"), None);
    assert_eq!(m.key_at(0), "k");
}

#[test]
fn strings_sort_by_code_point() {
    let sorted = sort_strings(vec!["b".to_string(), "Zeta".to_string(), "a".to_string(), "ab".to_string(), "é".to_string()]);
    assert_eq!(sorted, vec!["Zeta", "a", "ab", "b", "é"]);
}

#[test]
fn unknown_scopes_are_not_mapped() {
    assert_eq!(map_textmate_scope_to_zed("nothing.known.here"), None);
    assert_eq!(map_textmate_scope_to_zed("entity.name.function"), Some("function".to_string()));
}
