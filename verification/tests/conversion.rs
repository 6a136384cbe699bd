//! Conversions between VSCode and Zed color themes.

use thematic::convert::code_to_zed::{is_transparent, map_textmate_scope_to_zed, parse_font_style};
use thematic::convert::color::HexColor;
use thematic::convert::zed_to_code::map_zed_key_to_textmate_scopes;
use thematic::editors::vscode::extension::VsCodeExtension;
use thematic::editors::zed::extension::ZedExtension;
use thematic::editors::vscode::theme::{TokenColorRule, TokenColorSettings, TokenColors, TokenScope, VsCodeTheme};
use thematic::editors::zed::theme::{
    Appearance, FontStyle, FontWeight, HighlightStyle, ZedTheme, ZedThemeFamily, ZedThemeStyle,
};
use thematic::editors::zed::manifest::ZedManifest;
use thematic::strmap::StrMap;

/// Rosé Pine Moon, as its VSCode theme file describes it.
fn rose_pine_moon_vscode() -> VsCodeTheme {
    let mut theme = VsCodeTheme::new("Rosé Pine Moon".to_string());
    theme.theme_type = Some("dark".to_string());
    let colors = [
        ("editor.background", "#232136"),
        ("editor.foreground", "#e0def4"),
        ("editorError.foreground", "#eb6f92"),
        ("editorWarning.foreground", "#f6c177"),
        ("editorInfo.foreground", "#9ccfd8"),
        ("editorHint.foreground", "#908caa"),
        ("gitDecoration.modifiedResourceForeground", "#ea9a97"),
        ("gitDecoration.deletedResourceForeground", "#908caa"),
        ("gitDecoration.untrackedResourceForeground", "#f6c177"),
        ("gitDecoration.conflictingResourceForeground", "#eb6f92"),
        ("gitDecoration.renamedResourceForeground", "#3e8fb0"),
        ("gitDecoration.ignoredResourceForeground", "#6e6a86"),
        ("textLink.foreground", "#c4a7e7"),
        ("textLink.activeForeground", "#c4a7e7"),
        ("input.placeholderForeground", "#6e6a86"),
        ("terminal.ansiGreen", "#3e8fb0"),
        ("statusBar.background", "#232136"),
        ("sideBar.background", "#232136"),
        ("focusBorder", "#44415a"),
        ("editor.selectionBackground", "#817c9c26"),
        ("editorIndentGuide.background", "#44415a"),
        ("disabledForeground", "#6e6a86"),
        ("tab.inactiveBackground", "#0000"),
    ];
    for (k, v) in colors {
        theme.set_color(k.to_string(), v.to_string());
    }
    theme.add_token_rule(TokenColorRule::single_scope(
        "comment".to_string(),
        TokenColorSettings::foreground_with_style("#6e6a86".to_string(), "italic".to_string()),
    ));
    theme.add_token_rule(TokenColorRule::multiple_scopes(
        vec!["keyword".to_string(), "keyword.control".to_string()],
        TokenColorSettings::foreground("#3e8fb0".to_string()),
    ));
    theme
}

/// Catppuccin Mocha, as its VSCode theme file describes it.
fn catppuccin_mocha_vscode() -> VsCodeTheme {
    let mut theme = VsCodeTheme::new("Catppuccin Mocha".to_string());
    theme.theme_type = Some("dark".to_string());
    let colors = [
        ("editor.background", "#1e1e2e"),
        ("editor.foreground", "#cdd6f4"),
        ("editorError.foreground", "#f38ba8"),
        ("errorForeground", "#f38ba8"),
        ("editorWarning.foreground", "#fab387"),
        ("editorInfo.foreground", "#89b4fa"),
        ("disabledForeground", "#a6adc8"),
    ];
    for (k, v) in colors {
        theme.set_color(k.to_string(), v.to_string());
    }
    theme
}

/// Catppuccin Latte, a light theme.
fn catppuccin_latte_vscode() -> VsCodeTheme {
    let mut theme = VsCodeTheme::new("Catppuccin Latte".to_string());
    theme.theme_type = Some("light".to_string());
    theme.set_color("editor.background".to_string(), "#eff1f5".to_string());
    theme.set_color("editor.foreground".to_string(), "#4c4f69".to_string());
    theme
}

/// The Rosé Pine Moon family of the Zed extension.
fn rose_pine_moon_zed() -> ZedThemeFamily {
    let mut style = ZedThemeStyle::default();
    style.background = Some("#232136".to_string());
    style.editor_background = Some("#232136".to_string());
    style.editor_foreground = Some("#e0def4".to_string());
    style.text = Some("#e0def4".to_string());
    style.error = Some("#eb6f92".to_string());
    let mut syntax = StrMap::new();
    syntax.insert(
        "comment".to_string(),
        HighlightStyle {
            color: Some("#6e6a86".to_string()),
            font_style: Some(FontStyle::Italic),
            font_weight: None,
            background_color: None,
        },
    );
    syntax.insert(
        "keyword".to_string(),
        HighlightStyle { color: Some("#3e8fb0".to_string()), font_style: None, font_weight: None, background_color: None },
    );
    style.syntax = Some(syntax);
    ZedThemeFamily {
        schema: Some("https://zed.dev/schema/themes/v0.2.0.json".to_string()),
        author: "Rosé Pine".to_string(),
        name: "Rosé Pine Moon".to_string(),
        themes: vec![ZedTheme { name: "Rosé Pine Moon".to_string(), appearance: Appearance::Dark, style }],
    }
}

fn rule_names_scope(rule: &TokenColorRule, scope: &str) -> bool {
    match &rule.scope {
        Some(TokenScope::Single(s)) => s == scope,
        Some(TokenScope::Multiple(v)) => v.iter().any(|s| s == scope),
        None => false,
    }
}

#[test]
fn vscode_to_zed_conversion() {
    let vscode_theme = rose_pine_moon_vscode();
    let thematic = ZedTheme::from_vscode(&vscode_theme);
    assert_eq!(thematic.name, "Rosé Pine Moon");
    assert!(matches!(thematic.appearance, Appearance::Dark));
    assert!(thematic.style.editor_background.is_some());
    assert!(thematic.style.syntax.is_some());
}

#[test]
fn textmate_scope_mapping() {
    assert_eq!(map_textmate_scope_to_zed("comment"), Some("comment".to_string()));
    assert_eq!(map_textmate_scope_to_zed("keyword.control"), Some("keyword".to_string()));
    assert_eq!(map_textmate_scope_to_zed("string.quoted"), Some("string".to_string()));
    assert_eq!(map_textmate_scope_to_zed("constant.numeric"), Some("number".to_string()));
}

#[test]
fn transparent_colors_not_mapped() {
    assert!(is_transparent("#0000"));
    assert!(is_transparent("#00000000"));
    assert!(!is_transparent("#FF6B6B"));
    assert!(!is_transparent("#eb6f92"));
    assert!(!is_transparent("#000000"));
    assert!(!is_transparent("#000"));
}

#[test]
fn derived_translucent_colors_keep_leading_hash() {
    let zed = ZedTheme::from_vscode(&rose_pine_moon_vscode());
    let drop_target = zed
        .style
        .drop_target_background
        .as_deref()
        .expect("drop_target_background is derived from the editor background");
    assert!(
        drop_target.starts_with('#') && drop_target.len() == 9,
        "derived alpha color must be #rrggbbaa, got {drop_target:?}"
    );
}

#[test]
fn diagnostic_colors_from_vscode() {
    let zed = ZedTheme::from_vscode(&rose_pine_moon_vscode());
    assert_eq!(zed.style.error.as_deref(), Some("#eb6f92"));
    assert_eq!(zed.style.warning.as_deref(), Some("#f6c177"));
    assert_eq!(zed.style.info.as_deref(), Some("#9ccfd8"));
    assert_eq!(zed.style.hint.as_deref(), Some("#908caa"));
}

#[test]
fn git_colors_from_vscode() {
    let zed = ZedTheme::from_vscode(&rose_pine_moon_vscode());
    assert_eq!(zed.style.modified.as_deref(), Some("#ea9a97"));
    assert_eq!(zed.style.deleted.as_deref(), Some("#908caa"));
    assert_eq!(zed.style.created.as_deref(), Some("#f6c177"));
    assert_eq!(zed.style.conflict.as_deref(), Some("#eb6f92"));
    assert_eq!(zed.style.renamed.as_deref(), Some("#3e8fb0"));
    assert_eq!(zed.style.ignored.as_deref(), Some("#6e6a86"));
}

#[test]
fn text_accent_and_placeholder() {
    let zed = ZedTheme::from_vscode(&rose_pine_moon_vscode());
    assert_eq!(zed.style.text_accent.as_deref(), Some("#c4a7e7"));
    assert!(zed.style.text_placeholder.is_some());
    assert!(zed.style.link_text_hover.is_some());
}

#[test]
fn catppuccin_diagnostic_colors() {
    let zed = ZedTheme::from_vscode(&catppuccin_mocha_vscode());
    assert_eq!(zed.style.error.as_deref(), Some("#f38ba8"));
    assert_eq!(zed.style.warning.as_deref(), Some("#fab387"));
    assert_eq!(zed.style.info.as_deref(), Some("#89b4fa"));
    assert!(zed.style.text_disabled.is_some());
}

#[test]
fn font_style_empty_or_none_is_unset() {
    assert_eq!(parse_font_style(&None), (None, None));
    assert_eq!(parse_font_style(&Some(String::new())), (None, None));
}

#[test]
fn font_style_single_keywords() {
    assert_eq!(parse_font_style(&Some("italic".to_string())), (Some(FontStyle::Italic), None));
    assert_eq!(parse_font_style(&Some("oblique".to_string())), (Some(FontStyle::Oblique), None));
    assert_eq!(parse_font_style(&Some("bold".to_string())), (None, Some(FontWeight::Number(700))));
}

#[test]
fn font_style_bold_italic_combination_is_order_independent() {
    let expected = (Some(FontStyle::Italic), Some(FontWeight::Number(700)));
    assert_eq!(parse_font_style(&Some("bold italic".to_string())), expected);
    assert_eq!(parse_font_style(&Some("italic bold".to_string())), expected);
}

#[test]
fn font_style_drops_underline_and_strikethrough() {
    assert_eq!(parse_font_style(&Some("italic strikethrough".to_string())), (Some(FontStyle::Italic), None));
    assert_eq!(parse_font_style(&Some("bold strikethrough".to_string())), (None, Some(FontWeight::Number(700))));
    assert_eq!(parse_font_style(&Some("underline".to_string())), (None, None));
}

#[test]
fn font_style_tolerates_extra_whitespace() {
    assert_eq!(
        parse_font_style(&Some("  bold   italic  ".to_string())),
        (Some(FontStyle::Italic), Some(FontWeight::Number(700)))
    );
}

#[test]
fn with_alpha_keeps_single_hash() {
    assert_eq!(HexColor::new("#1a1a1a").with_alpha("66"), "#1a1a1a66");
    assert_eq!(HexColor::new("1a1a1a").with_alpha("66"), "#1a1a1a66");
}

#[test]
fn comprehensive_theme_conversion_test() {
    let vscode_rose_pine = rose_pine_moon_vscode();
    let zed_rose_pine = ZedTheme::from_vscode(&vscode_rose_pine);
    let vscode_converted_back = VsCodeTheme::from_zed(&zed_rose_pine);

    assert_eq!(zed_rose_pine.name, "Rosé Pine Moon");
    assert!(matches!(zed_rose_pine.appearance, Appearance::Dark));
    assert_eq!(vscode_converted_back.name, "Rosé Pine Moon");
    assert_eq!(vscode_converted_back.theme_type.as_deref(), Some("dark"));

    let vscode_latte = catppuccin_latte_vscode();
    let zed_latte = ZedTheme::from_vscode(&vscode_latte);
    let vscode_latte_converted_back = VsCodeTheme::from_zed(&zed_latte);

    assert_eq!(zed_latte.name, "Catppuccin Latte");
    assert!(matches!(zed_latte.appearance, Appearance::Light));
    assert_eq!(vscode_latte_converted_back.name, "Catppuccin Latte");
    assert_eq!(vscode_latte_converted_back.theme_type.as_deref(), Some("light"));

    assert!(zed_rose_pine.style.editor_background.is_some());
    assert!(zed_rose_pine.style.editor_foreground.is_some());
    assert!(zed_rose_pine.style.syntax.is_some());
    assert!(zed_rose_pine.style.players.is_some());

    let zed_family = rose_pine_moon_zed();
    let first_zed_theme = &zed_family.themes[0];
    let converted_vscode = VsCodeTheme::from_zed(first_zed_theme);

    assert_eq!(converted_vscode.name, "Rosé Pine Moon");
    assert!(converted_vscode.colors.is_some());
    assert!(converted_vscode.token_colors.is_some());

    let colors = converted_vscode.colors.as_ref().unwrap();
    assert!(colors.contains_key("editor.background"));
    assert!(colors.contains_key("editor.foreground"));

    if let Some(TokenColors::Rules(rules)) = &converted_vscode.token_colors {
        assert!(!rules.is_empty());
        let has_comment = rules.iter().any(|rule| rule_names_scope(rule, "comment"));
        assert!(has_comment, "Should have comment syntax highlighting");
    }
}

#[test]
fn color_mapping_accuracy() {
    let vscode_theme = rose_pine_moon_vscode();
    let zed_family = rose_pine_moon_zed();
    let thematic = &zed_family.themes[0];
    let converted_zed = ZedTheme::from_vscode(&vscode_theme);

    if let (Some(orig_bg), Some(conv_bg)) = (&thematic.style.editor_background, &converted_zed.style.editor_background) {
        assert_eq!(orig_bg, conv_bg, "Editor background should match");
    }
    if let (Some(orig_fg), Some(conv_fg)) = (&thematic.style.editor_foreground, &converted_zed.style.editor_foreground) {
        assert_eq!(orig_fg, conv_fg, "Editor foreground should match");
    }
}

#[test]
fn zed_to_vscode_conversion() {
    let zed_family = rose_pine_moon_zed();
    let thematic = &zed_family.themes[0];
    let vscode_theme = VsCodeTheme::from_zed(thematic);
    assert_eq!(vscode_theme.name, "Rosé Pine Moon");
    assert_eq!(vscode_theme.theme_type, Some("dark".to_string()));
    assert!(vscode_theme.colors.is_some());
    assert!(vscode_theme.token_colors.is_some());
}

#[test]
fn zed_family_to_vscode_themes() {
    let zed_family = rose_pine_moon_zed();
    let vscode_themes = VsCodeTheme::from_zed_family(&zed_family);
    assert_eq!(vscode_themes.len(), zed_family.themes.len());
    assert_eq!(vscode_themes[0].name, zed_family.themes[0].name);
}

#[test]
fn zed_key_to_textmate_mapping() {
    let scopes = map_zed_key_to_textmate_scopes("comment").unwrap();
    assert!(scopes.contains(&"comment".to_string()));
    let scopes = map_zed_key_to_textmate_scopes("function").unwrap();
    assert!(scopes.contains(&"entity.name.function".to_string()));
}

#[test]
fn fixture_consistency() {
    let vscode_theme = rose_pine_moon_vscode();
    let zed_family = rose_pine_moon_zed();
    let zed_moon = zed_family
        .themes
        .iter()
        .find(|theme| theme.name.to_lowercase().contains("moon"))
        .expect("Should find moon theme in Zed fixture");
    assert!(vscode_theme.is_dark_theme(), "VSCode Rose Pine Moon should be dark");
    assert!(matches!(zed_moon.appearance, Appearance::Dark), "Zed Rose Pine Moon should be dark");
    let vscode_name_lower = vscode_theme.name.to_lowercase();
    let zed_name_lower = zed_moon.name.to_lowercase();
    assert!(
        (vscode_name_lower.contains("rose") || vscode_name_lower.contains("rosé")) && vscode_name_lower.contains("pine"),
        "VSCode theme name should contain 'rose/rosé pine'"
    );
    assert!(
        (zed_name_lower.contains("rose") || zed_name_lower.contains("rosé")) && zed_name_lower.contains("pine"),
        "Zed theme name should contain 'rose/rosé pine'"
    );
}

#[test]
fn round_trip_vscode_to_zed_to_vscode() {
    let first_vscode = rose_pine_moon_vscode();
    let zed = ZedTheme::from_vscode(&first_vscode);
    let round_trip_vscode = VsCodeTheme::from_zed(&zed);
    assert_eq!(first_vscode.name, round_trip_vscode.name, "Theme name should survive round trip");
    assert_eq!(first_vscode.is_dark_theme(), round_trip_vscode.is_dark_theme(), "Theme darkness should be preserved");
    if let (Some(orig_colors), Some(rt_colors)) = (&first_vscode.colors, &round_trip_vscode.colors) {
        assert!(!rt_colors.is_empty(), "Round trip theme should have colors");
        for key in ["editor.background", "editor.foreground"] {
            if orig_colors.contains_key(key) {
                assert!(rt_colors.contains_key(key), "Key color '{key}' should be preserved in round trip");
            }
        }
    }
}

#[test]
fn round_trip_zed_to_vscode_to_zed() {
    let first_zed_family = rose_pine_moon_zed();
    let first_zed = &first_zed_family.themes[0];
    let vscode_theme = VsCodeTheme::from_zed(first_zed);
    let round_trip_zed = ZedTheme::from_vscode(&vscode_theme);
    assert_eq!(first_zed.name, round_trip_zed.name, "Theme name should survive round trip");
    assert_eq!(first_zed.appearance, round_trip_zed.appearance, "Theme appearance should survive round trip");
    if first_zed.style.background.is_some() {
        assert!(round_trip_zed.style.background.is_some(), "Background styles should be preserved");
    }
}

#[test]
fn font_style_combination_round_trips() {
    let mut vscode = VsCodeTheme::new("Font Style Test".to_string());
    vscode.theme_type = Some("dark".to_string());
    vscode.add_token_rule(TokenColorRule::single_scope(
        "comment".to_string(),
        TokenColorSettings::foreground_with_style("#abcdef".to_string(), "bold italic".to_string()),
    ));

    let zed = ZedTheme::from_vscode(&vscode);
    let comment = zed
        .style
        .syntax
        .as_ref()
        .and_then(|syntax| syntax.get("comment"))
        .expect("comment syntax entry should exist");
    assert_eq!(comment.font_style, Some(FontStyle::Italic));
    assert_eq!(comment.font_weight, Some(FontWeight::Number(700)));

    let back = VsCodeTheme::from_zed(&zed);
    let rules = match back.token_colors {
        Some(TokenColors::Rules(rules)) => rules,
        other => panic!("expected token color rules, got {other:?}"),
    };
    let comment_rule = rules
        .iter()
        .find(|rule| rule.name.as_deref() == Some("comment"))
        .expect("a round-tripped comment rule should exist");
    assert_eq!(comment_rule.settings.font_style.as_deref(), Some("italic bold"));
}

#[test]
fn specific_color_preservation() {
    let vscode_theme = rose_pine_moon_vscode();
    let first_bg = vscode_theme.get_color("editor.background").map(|c| c.to_string());
    let zed = ZedTheme::from_vscode(&vscode_theme);
    let round_trip_vscode = VsCodeTheme::from_zed(&zed);
    let first_bg = first_bg.expect("the theme has an editor background");
    let rt_bg = round_trip_vscode.get_color("editor.background").expect("the background survives");
    assert_eq!(first_bg.trim_start_matches('#').to_lowercase(), rt_bg.trim_start_matches('#').to_lowercase());
}

#[test]
fn theme_type_detection() {
    let dark_theme = rose_pine_moon_vscode();
    assert!(dark_theme.is_dark_theme(), "Rose Pine Moon should be detected as dark");
    let zed = ZedTheme::from_vscode(&dark_theme);
    assert!(matches!(zed.appearance, Appearance::Dark), "Converted Zed theme should have dark appearance");
}

#[test]
fn metadata_preservation() {
    let vscode_theme = rose_pine_moon_vscode();
    let zed_extension = ZedExtension::from_vscode_theme(&vscode_theme, "/zed/extensions/installed");
    let metadata = zed_extension.manifest();
    assert!(!metadata.name().is_empty(), "Extension should have a name");
    assert!(!metadata.id().is_empty(), "Extension should have an ID");
    assert!(!metadata.themes().is_empty(), "Extension should list its themes");

    let vscode_extension = VsCodeExtension::from_zed_extension(&zed_extension, "/vscode/extensions");
    let vs_metadata = vscode_extension.manifest();
    assert!(!vs_metadata.name().is_empty(), "VSCode extension should have a name");
    assert!(!vs_metadata.display_name().is_empty(), "VSCode extension should have a display name");
    assert!(!vs_metadata.themes().is_empty(), "VSCode extension should contribute themes");
}

/// Another Rosé Pine variant, with only its editor colors.
fn rose_pine_variant_vscode(name: &str, theme_type: &str, background: &str, foreground: &str) -> VsCodeTheme {
    let mut theme = VsCodeTheme::new(name.to_string());
    theme.theme_type = Some(theme_type.to_string());
    theme.set_color("editor.background".to_string(), background.to_string());
    theme.set_color("editor.foreground".to_string(), foreground.to_string());
    theme
}

/// A Zed family of one Rosé Pine variant.
fn rose_pine_variant_zed(name: &str, appearance: Appearance, background: &str) -> ZedThemeFamily {
    let mut style = ZedThemeStyle::default();
    style.background = Some(background.to_string());
    style.editor_background = Some(background.to_string());
    ZedThemeFamily {
        schema: Some("https://zed.dev/schema/themes/v0.2.0.json".to_string()),
        author: "Rosé Pine".to_string(),
        name: name.to_string(),
        themes: vec![ZedTheme { name: name.to_string(), appearance, style }],
    }
}

#[test]
fn vscode_to_zed_rose_pine_conversion() {
    let vscode_ext = VsCodeExtension::from_loose_themes(
        "./fixtures/vscode/rose-pine".to_string(),
        "rose-pine",
        vec![
            rose_pine_variant_vscode("Rosé Pine", "dark", "#191724", "#e0def4"),
            rose_pine_moon_vscode(),
            rose_pine_variant_vscode("Rosé Pine Dawn", "light", "#faf4ed", "#575279"),
        ],
    )
    .expect("the themes make an extension");
    let zed_extension = ZedExtension::from_vscode_extension(&vscode_ext, "/zed/extensions/installed");

    assert!(!zed_extension.name().is_empty(), "Extension should have a name");
    assert!(!zed_extension.manifest().themes().is_empty(), "Extension should reference theme files");

    let families = zed_extension.families();
    assert!(!families.is_empty());
    let this_family = families.iter().find(|fam| fam.themes.iter().any(|theme| theme.name == "Rosé Pine Moon"));
    assert!(this_family.is_some(), "cannot find a family with Pine Moon");

    let zed_moon = zed_extension.themes().iter().find(|theme| theme.name == "Rosé Pine Moon");
    assert!(zed_moon.is_some(), "Zed extension should include Rosé Pine Moon");
    assert!(
        vscode_ext.themes().iter().any(|theme| theme.name == "Rosé Pine Moon"),
        "VSCode extension should include Rosé Pine Moon"
    );
    let zed_moon = zed_moon.expect("found above");
    assert!(matches!(zed_moon.appearance, Appearance::Dark), "Rosé Pine Moon should be dark");
    assert!(zed_moon.style.background.is_some(), "Background style should be present");
}

#[test]
fn zed_to_vscode_rose_pine_conversion() {
    let families = vec![
        rose_pine_variant_zed("Rosé Pine", Appearance::Dark, "#191724"),
        rose_pine_moon_zed(),
        rose_pine_variant_zed("Rosé Pine Dawn", Appearance::Light, "#faf4ed"),
    ];
    let manifest = ZedManifest::plain(
        "rose-pine-theme".to_string(),
        "Rosé Pine".to_string(),
        "0.1.0".to_string(),
        "Soho vibes for Zed".to_string(),
        "https://github.com/rose-pine/zed".to_string(),
        vec!["Rosé Pine".to_string()],
        vec![
            "./themes/rose-pine.json".to_string(),
            "./themes/rose-pine-moon.json".to_string(),
            "./themes/rose-pine-dawn.json".to_string(),
        ],
        Vec::new(),
    );
    let zed_extension = *ZedExtension::from_metadata("./fixtures/zed/rose-pine-theme".to_string(), manifest, families, Vec::new())
        .expect("the manifest and its families make an extension");
    let vscode_extension = VsCodeExtension::from_zed_extension(&zed_extension, "/vscode/extensions");

    assert!(!vscode_extension.name().is_empty(), "Extension should have a name");
    assert_eq!(zed_extension.name(), vscode_extension.name(), "names should be identical");
    assert_eq!(
        zed_extension.manifest().themes().len(),
        vscode_extension.manifest().themes().len(),
        "vscode version should have the same number of theme variants"
    );
    assert_eq!(vscode_extension.manifest().themes().len(), 3, "we expected three theme variants");

    let themes = vscode_extension.themes();
    assert!(!themes.is_empty(), "Extension should have at least one theme");
    assert_eq!(themes.len(), 3, "in fact we expected 3");

    let zed_moon = zed_extension.themes().iter().find(|theme| theme.name.contains("Pine Moon"));
    assert!(zed_moon.is_some(), "Zed extension should include Rosé Pine Moon");
    let vsc_moon = themes.iter().find(|theme| theme.name.contains("Pine Moon"));
    assert!(vsc_moon.is_some(), "VSCode extension should include Rosé Pine Moon");
    let zed_moon = zed_moon.expect("found above");
    let vsc_moon = vsc_moon.expect("found above");

    assert_eq!(vsc_moon.name, zed_moon.name, "Theme name should be preserved");
    assert!(matches!(zed_moon.appearance, Appearance::Dark), "Rosé Pine Moon should be dark");
    assert!(vsc_moon.is_dark_theme(), "Rose Pine Moon should be dark");
    let colors = vsc_moon.colors.as_ref().expect("VSCode theme should have colors");
    assert!(!colors.is_empty(), "Colors map should not be empty");
    assert!(vsc_moon.get_color("editor.background").is_some(), "Should have editor background color");
}

#[test]
fn first_scope_of_each_zed_key_maps_back() {
    let keys = [
        "comment", "comment.doc", "keyword", "string", "string.regex", "number", "constant", "function", "type",
        "variable", "variable.special", "punctuation", "punctuation.delimiter", "punctuation.bracket", "operator",
        "tag", "title", "emphasis.strong", "emphasis", "error", "constructor", "property", "label",
    ];
    for key in keys {
        let scopes = map_zed_key_to_textmate_scopes(key).expect("every key has scopes");
        assert!(!scopes.is_empty());
        assert_eq!(map_textmate_scope_to_zed(&scopes[0]), Some(key.to_string()), "{key}");
    }
}

#[test]
fn zed_round_trip_keeps_the_editor_background() {
    let family = rose_pine_moon_zed();
    let first = &family.themes[0];
    let back = ZedTheme::from_vscode(&VsCodeTheme::from_zed(first));
    assert_eq!(back.style.background.as_deref(), Some("#232136"));
    assert_eq!(back.style.editor_background.as_deref(), Some("#232136"));
}
