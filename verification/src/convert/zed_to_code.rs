//! Conversion of Zed themes into VSCode color themes.

use vstd::prelude::*;

use crate::editors::vscode::theme::{
    rules_view, TokenColorRule, TokenColorRuleView, TokenColorSettings, TokenColorSettingsView, TokenColors,
    TokenColorsView, TokenScope, TokenScopeView, VsCodeTheme, VsCodeThemeView,
};
use crate::editors::zed::theme::{
    clone_opt, Appearance, FontStyle, FontWeight, HighlightStyle, HighlightStyleView, NamedFontWeight, ZedTheme,
    ZedThemeFamily, ZedThemeStyle, ZedThemeStyleView,
};
use crate::slugs::slug_of;
use crate::strmap::StrMap;
use crate::text::{owned, str_eq};

verus! {

/// `m` with `c` stored under `k`, when there is a color.
pub open spec fn put(m: Map<Seq<char>, Seq<char>>, k: Seq<char>, c: Option<Seq<char>>) -> Map<Seq<char>, Seq<char>> {
    match c {
        Some(v) => m.insert(k, v),
        None => m,
    }
}

/// Stores a copy of `c` under `key`, when there is a color.
fn put_color(colors: &mut StrMap<String>, key: &str, c: &Option<String>)
    ensures
        final(colors)@ == put(old(colors)@, key@, c.deep_view()),
{
    if let Some(color) = c {
        colors.insert(owned(key), color.clone());
    }
}

/// The editor, status bar, title bar, tab and terminal base colors.
pub open spec fn chrome_colors(s: ZedThemeStyleView, m: Map<Seq<char>, Seq<char>>) -> Map<Seq<char>, Seq<char>> {
    let m = put(m, "editor.background"@, s.editor_background);
    let m = put(m, "editor.foreground"@, s.editor_foreground);
    let m = put(m, "statusBar.background"@, s.status_bar_background);
    let m = put(m, "statusBar.foreground"@, s.text);
    let m = put(m, "titleBar.activeBackground"@, s.title_bar_background);
    let m = put(m, "titleBar.inactiveBackground"@, s.title_bar_inactive_background);
    let m = put(m, "tab.activeBackground"@, s.tab_active_background);
    let m = put(m, "tab.inactiveBackground"@, s.tab_inactive_background);
    let m = put(m, "editorGroupHeader.tabsBackground"@, s.tab_bar_background);
    let m = put(m, "terminal.foreground"@, s.terminal_foreground);
    let m = put(m, "terminal.background"@, s.terminal_background);
    m
}

/// Maps the editor, status bar, title bar, tab and terminal base colors.
fn map_chrome_colors(zed_style: &ZedThemeStyle, colors: &mut StrMap<String>)
    ensures
        final(colors)@ == chrome_colors(zed_style@, old(colors)@),
{
    put_color(colors, "editor.background", &zed_style.editor_background);
    put_color(colors, "editor.foreground", &zed_style.editor_foreground);
    put_color(colors, "statusBar.background", &zed_style.status_bar_background);
    put_color(colors, "statusBar.foreground", &zed_style.text);
    put_color(colors, "titleBar.activeBackground", &zed_style.title_bar_background);
    put_color(colors, "titleBar.inactiveBackground", &zed_style.title_bar_inactive_background);
    put_color(colors, "tab.activeBackground", &zed_style.tab_active_background);
    put_color(colors, "tab.inactiveBackground", &zed_style.tab_inactive_background);
    put_color(colors, "editorGroupHeader.tabsBackground", &zed_style.tab_bar_background);
    put_color(colors, "terminal.foreground", &zed_style.terminal_foreground);
    put_color(colors, "terminal.background", &zed_style.terminal_background);
}

/// The sixteen terminal ANSI colors.
pub open spec fn terminal_ansi_colors(s: ZedThemeStyleView, m: Map<Seq<char>, Seq<char>>) -> Map<Seq<char>, Seq<char>> {
    let m = put(m, "terminal.ansiBlack"@, s.terminal_ansi_black);
    let m = put(m, "terminal.ansiRed"@, s.terminal_ansi_red);
    let m = put(m, "terminal.ansiGreen"@, s.terminal_ansi_green);
    let m = put(m, "terminal.ansiYellow"@, s.terminal_ansi_yellow);
    let m = put(m, "terminal.ansiBlue"@, s.terminal_ansi_blue);
    let m = put(m, "terminal.ansiMagenta"@, s.terminal_ansi_magenta);
    let m = put(m, "terminal.ansiCyan"@, s.terminal_ansi_cyan);
    let m = put(m, "terminal.ansiWhite"@, s.terminal_ansi_white);
    let m = put(m, "terminal.ansiBrightBlack"@, s.terminal_ansi_bright_black);
    let m = put(m, "terminal.ansiBrightRed"@, s.terminal_ansi_bright_red);
    let m = put(m, "terminal.ansiBrightGreen"@, s.terminal_ansi_bright_green);
    let m = put(m, "terminal.ansiBrightYellow"@, s.terminal_ansi_bright_yellow);
    let m = put(m, "terminal.ansiBrightBlue"@, s.terminal_ansi_bright_blue);
    let m = put(m, "terminal.ansiBrightMagenta"@, s.terminal_ansi_bright_magenta);
    let m = put(m, "terminal.ansiBrightCyan"@, s.terminal_ansi_bright_cyan);
    let m = put(m, "terminal.ansiBrightWhite"@, s.terminal_ansi_bright_white);
    m
}

/// Maps Zed terminal colors to VSCode format.
fn map_zed_terminal_colors(zed_style: &ZedThemeStyle, colors: &mut StrMap<String>)
    ensures
        final(colors)@ == terminal_ansi_colors(zed_style@, old(colors)@),
{
    put_color(colors, "terminal.ansiBlack", &zed_style.terminal_ansi_black);
    put_color(colors, "terminal.ansiRed", &zed_style.terminal_ansi_red);
    put_color(colors, "terminal.ansiGreen", &zed_style.terminal_ansi_green);
    put_color(colors, "terminal.ansiYellow", &zed_style.terminal_ansi_yellow);
    put_color(colors, "terminal.ansiBlue", &zed_style.terminal_ansi_blue);
    put_color(colors, "terminal.ansiMagenta", &zed_style.terminal_ansi_magenta);
    put_color(colors, "terminal.ansiCyan", &zed_style.terminal_ansi_cyan);
    put_color(colors, "terminal.ansiWhite", &zed_style.terminal_ansi_white);
    put_color(colors, "terminal.ansiBrightBlack", &zed_style.terminal_ansi_bright_black);
    put_color(colors, "terminal.ansiBrightRed", &zed_style.terminal_ansi_bright_red);
    put_color(colors, "terminal.ansiBrightGreen", &zed_style.terminal_ansi_bright_green);
    put_color(colors, "terminal.ansiBrightYellow", &zed_style.terminal_ansi_bright_yellow);
    put_color(colors, "terminal.ansiBrightBlue", &zed_style.terminal_ansi_bright_blue);
    put_color(colors, "terminal.ansiBrightMagenta", &zed_style.terminal_ansi_bright_magenta);
    put_color(colors, "terminal.ansiBrightCyan", &zed_style.terminal_ansi_bright_cyan);
    put_color(colors, "terminal.ansiBrightWhite", &zed_style.terminal_ansi_bright_white);
}

/// Line numbers, gutter, sidebar, panel, selection, scrollbar, search, link and list colors.
pub open spec fn workbench_colors(s: ZedThemeStyleView, m: Map<Seq<char>, Seq<char>>) -> Map<Seq<char>, Seq<char>> {
    let m = put(m, "editorLineNumber.foreground"@, s.editor_line_number);
    let m = put(m, "editorLineNumber.activeForeground"@, s.editor_active_line_number);
    let m = put(m, "editor.lineHighlightBackground"@, s.editor_active_line_background);
    let m = put(m, "editorGutter.background"@, s.editor_gutter_background);
    let m = put(m, "foreground"@, s.text);
    let m = put(m, "focusBorder"@, s.border_focused);
    let m = put(m, "sideBar.background"@, s.surface_background);
    let m = put(m, "sideBar.foreground"@, s.text);
    let m = put(m, "panel.background"@, s.panel_background);
    let m = put(m, "editor.selectionBackground"@, s.element_selected);
    let m = put(m, "scrollbarSlider.background"@, s.scrollbar_thumb_background);
    let m = put(m, "scrollbarSlider.hoverBackground"@, s.scrollbar_thumb_hover_background);
    let m = put(m, "editor.findMatchHighlightBackground"@, s.search_match_background);
    let m = put(m, "textLink.foreground"@, s.text_accent);
    let m = put(m, "disabledForeground"@, s.text_disabled);
    let m = put(m, "input.placeholderForeground"@, s.text_placeholder);
    let m = put(m, "textLink.activeForeground"@, s.link_text_hover);
    let m = put(m, "editorWidget.border"@, s.border_variant);
    let m = put(m, "list.activeSelectionBackground"@, s.element_active);
    m
}

/// Maps the line number, gutter, sidebar, panel, selection, scrollbar, search, link and list colors.
fn map_workbench_colors(zed_style: &ZedThemeStyle, colors: &mut StrMap<String>)
    ensures
        final(colors)@ == workbench_colors(zed_style@, old(colors)@),
{
    put_color(colors, "editorLineNumber.foreground", &zed_style.editor_line_number);
    put_color(colors, "editorLineNumber.activeForeground", &zed_style.editor_active_line_number);
    put_color(colors, "editor.lineHighlightBackground", &zed_style.editor_active_line_background);
    put_color(colors, "editorGutter.background", &zed_style.editor_gutter_background);
    put_color(colors, "foreground", &zed_style.text);
    put_color(colors, "focusBorder", &zed_style.border_focused);
    put_color(colors, "sideBar.background", &zed_style.surface_background);
    put_color(colors, "sideBar.foreground", &zed_style.text);
    put_color(colors, "panel.background", &zed_style.panel_background);
    put_color(colors, "editor.selectionBackground", &zed_style.element_selected);
    put_color(colors, "scrollbarSlider.background", &zed_style.scrollbar_thumb_background);
    put_color(colors, "scrollbarSlider.hoverBackground", &zed_style.scrollbar_thumb_hover_background);
    put_color(colors, "editor.findMatchHighlightBackground", &zed_style.search_match_background);
    put_color(colors, "textLink.foreground", &zed_style.text_accent);
    put_color(colors, "disabledForeground", &zed_style.text_disabled);
    put_color(colors, "input.placeholderForeground", &zed_style.text_placeholder);
    put_color(colors, "textLink.activeForeground", &zed_style.link_text_hover);
    put_color(colors, "editorWidget.border", &zed_style.border_variant);
    put_color(colors, "list.activeSelectionBackground", &zed_style.element_active);
}

/// Diagnostic, git decoration and indent guide colors.
pub open spec fn status_colors(s: ZedThemeStyleView, m: Map<Seq<char>, Seq<char>>) -> Map<Seq<char>, Seq<char>> {
    let m = put(m, "editorError.foreground"@, s.error);
    let m = put(m, "errorForeground"@, s.error);
    let m = put(m, "editorWarning.foreground"@, s.warning);
    let m = put(m, "editorInfo.foreground"@, s.info);
    let m = put(m, "editorHint.foreground"@, s.hint);
    let m = put(m, "gitDecoration.modifiedResourceForeground"@, s.modified);
    let m = put(m, "gitDecoration.deletedResourceForeground"@, s.deleted);
    let m = put(m, "gitDecoration.untrackedResourceForeground"@, s.created);
    let m = put(m, "gitDecoration.conflictingResourceForeground"@, s.conflict);
    let m = put(m, "gitDecoration.renamedResourceForeground"@, s.renamed);
    let m = put(m, "gitDecoration.ignoredResourceForeground"@, s.ignored);
    let m = put(m, "editorIndentGuide.background"@, s.editor_indent_guide);
    let m = put(m, "editorIndentGuide.activeBackground"@, s.editor_indent_guide_active);
    m
}

/// Maps the diagnostic, git decoration and indent guide colors.
fn map_status_colors(zed_style: &ZedThemeStyle, colors: &mut StrMap<String>)
    ensures
        final(colors)@ == status_colors(zed_style@, old(colors)@),
{
    put_color(colors, "editorError.foreground", &zed_style.error);
    put_color(colors, "errorForeground", &zed_style.error);
    put_color(colors, "editorWarning.foreground", &zed_style.warning);
    put_color(colors, "editorInfo.foreground", &zed_style.info);
    put_color(colors, "editorHint.foreground", &zed_style.hint);
    put_color(colors, "gitDecoration.modifiedResourceForeground", &zed_style.modified);
    put_color(colors, "gitDecoration.deletedResourceForeground", &zed_style.deleted);
    put_color(colors, "gitDecoration.untrackedResourceForeground", &zed_style.created);
    put_color(colors, "gitDecoration.conflictingResourceForeground", &zed_style.conflict);
    put_color(colors, "gitDecoration.renamedResourceForeground", &zed_style.renamed);
    put_color(colors, "gitDecoration.ignoredResourceForeground", &zed_style.ignored);
    put_color(colors, "editorIndentGuide.background", &zed_style.editor_indent_guide);
    put_color(colors, "editorIndentGuide.activeBackground", &zed_style.editor_indent_guide_active);
}

/// The VSCode workbench colors of a Zed style.
pub open spec fn zed_colors(s: ZedThemeStyleView) -> Map<Seq<char>, Seq<char>> {
    status_colors(s, workbench_colors(s, terminal_ansi_colors(s, chrome_colors(s, Map::empty()))))
}

/// Maps Zed theme colors to VSCode color format.
fn map_zed_to_vscode_colors(zed_style: &ZedThemeStyle) -> (r: StrMap<String>)
    ensures
        r@ == zed_colors(zed_style@),
{
    let mut colors: StrMap<String> = StrMap::new();
    map_chrome_colors(zed_style, &mut colors);
    map_zed_terminal_colors(zed_style, &mut colors);
    map_workbench_colors(zed_style, &mut colors);
    map_status_colors(zed_style, &mut colors);
    colors
}

/// One string.
fn strings1(a: &str) -> (r: Vec<String>)
    ensures
        r.deep_view() == seq![a@],
{
    let r = vec![owned(a)];
    assert(r.deep_view() =~= seq![a@]);
    r
}

/// Two strings, in order.
fn strings2(a: &str, b: &str) -> (r: Vec<String>)
    ensures
        r.deep_view() == seq![a@, b@],
{
    let r = vec![owned(a), owned(b)];
    assert(r.deep_view() =~= seq![a@, b@]);
    r
}

/// Three strings, in order.
fn strings3(a: &str, b: &str, c: &str) -> (r: Vec<String>)
    ensures
        r.deep_view() == seq![a@, b@, c@],
{
    let r = vec![owned(a), owned(b), owned(c)];
    assert(r.deep_view() =~= seq![a@, b@, c@]);
    r
}

/// The TextMate scopes of a Zed syntax key, if it has any.
pub open spec fn zed_key_scopes(key: Seq<char>) -> Option<Seq<Seq<char>>> {
    if key == "comment"@ {
        Some(seq!["comment"@])
    } else if key == "comment.doc"@ {
        Some(seq!["comment.block.documentation"@])
    } else if key == "keyword"@ {
        Some(seq!["keyword"@, "keyword.control"@])
    } else if key == "string"@ {
        Some(seq!["string"@, "string.quoted"@])
    } else if key == "string.regex"@ {
        Some(seq!["string.regexp"@])
    } else if key == "number"@ {
        Some(seq!["constant.numeric"@])
    } else if key == "constant"@ {
        Some(seq!["constant"@])
    } else if key == "function"@ {
        Some(seq!["entity.name.function"@, "support.function"@])
    } else if key == "type"@ {
        Some(seq!["entity.name.type"@, "support.type"@, "storage.type"@])
    } else if key == "variable"@ {
        Some(seq!["variable"@])
    } else if key == "variable.special"@ {
        Some(seq!["variable.language"@, "variable.other.special"@])
    } else if key == "punctuation"@ {
        Some(seq!["punctuation"@])
    } else if key == "punctuation.delimiter"@ {
        Some(seq!["punctuation.definition"@])
    } else if key == "punctuation.bracket"@ {
        Some(seq!["punctuation.definition.bracket"@])
    } else if key == "operator"@ {
        Some(seq!["keyword.operator"@])
    } else if key == "tag"@ {
        Some(seq!["entity.name.tag"@])
    } else if key == "title"@ {
        Some(seq!["markup.heading"@])
    } else if key == "emphasis.strong"@ {
        Some(seq!["markup.bold"@])
    } else if key == "emphasis"@ {
        Some(seq!["markup.italic"@])
    } else if key == "error"@ {
        Some(seq!["invalid"@, "invalid.illegal"@])
    } else if key == "constructor"@ {
        Some(seq!["entity.name.function.constructor"@])
    } else if key == "property"@ {
        Some(seq!["variable.other.property"@])
    } else if key == "label"@ {
        Some(seq!["entity.name.label"@])
    } else {
        None
    }
}

/// Maps Zed syntax keys to VSCode TextMate scopes.
pub fn map_zed_key_to_textmate_scopes(zed_key: &str) -> (r: Option<Vec<String>>)
    ensures
        r.deep_view() == zed_key_scopes(zed_key@),
{
    if str_eq(zed_key, "comment") {
        Some(strings1("comment"))
    } else if str_eq(zed_key, "comment.doc") {
        Some(strings1("comment.block.documentation"))
    } else if str_eq(zed_key, "keyword") {
        Some(strings2("keyword", "keyword.control"))
    } else if str_eq(zed_key, "string") {
        Some(strings2("string", "string.quoted"))
    } else if str_eq(zed_key, "string.regex") {
        Some(strings1("string.regexp"))
    } else if str_eq(zed_key, "number") {
        Some(strings1("constant.numeric"))
    } else if str_eq(zed_key, "constant") {
        Some(strings1("constant"))
    } else if str_eq(zed_key, "function") {
        Some(strings2("entity.name.function", "support.function"))
    } else if str_eq(zed_key, "type") {
        Some(strings3("entity.name.type", "support.type", "storage.type"))
    } else if str_eq(zed_key, "variable") {
        Some(strings1("variable"))
    } else if str_eq(zed_key, "variable.special") {
        Some(strings2("variable.language", "variable.other.special"))
    } else if str_eq(zed_key, "punctuation") {
        Some(strings1("punctuation"))
    } else if str_eq(zed_key, "punctuation.delimiter") {
        Some(strings1("punctuation.definition"))
    } else if str_eq(zed_key, "punctuation.bracket") {
        Some(strings1("punctuation.definition.bracket"))
    } else if str_eq(zed_key, "operator") {
        Some(strings1("keyword.operator"))
    } else if str_eq(zed_key, "tag") {
        Some(strings1("entity.name.tag"))
    } else if str_eq(zed_key, "title") {
        Some(strings1("markup.heading"))
    } else if str_eq(zed_key, "emphasis.strong") {
        Some(strings1("markup.bold"))
    } else if str_eq(zed_key, "emphasis") {
        Some(strings1("markup.italic"))
    } else if str_eq(zed_key, "error") {
        Some(strings2("invalid", "invalid.illegal"))
    } else if str_eq(zed_key, "constructor") {
        Some(strings1("entity.name.function.constructor"))
    } else if str_eq(zed_key, "property") {
        Some(strings1("variable.other.property"))
    } else if str_eq(zed_key, "label") {
        Some(strings1("entity.name.label"))
    } else {
        None
    }
}

/// The VSCode name of a Zed font style.
pub open spec fn font_style_name(f: FontStyle) -> Seq<char> {
    match f {
        FontStyle::Italic => "italic"@,
        FontStyle::Oblique => "oblique"@,
        FontStyle::Normal => "normal"@,
    }
}

/// The VSCode name of a Zed font style.
fn font_style_string(f: FontStyle) -> (r: String)
    ensures
        r@ == font_style_name(f),
{
    match f {
        FontStyle::Italic => owned("italic"),
        FontStyle::Oblique => owned("oblique"),
        FontStyle::Normal => owned("normal"),
    }
}

/// A Zed font weight that VSCode writes as `bold`: 700 or heavier.
pub open spec fn is_bold_weight(w: FontWeight) -> bool {
    match w {
        FontWeight::Number(n) => n >= 700,
        FontWeight::Named(n) => n == NamedFontWeight::Bold || n == NamedFontWeight::ExtraBold || n
            == NamedFontWeight::Black,
    }
}

/// The VSCode `fontStyle` keywords of a Zed highlight style: the name of
/// its font style, then `bold` for a bold weight, separated by a space;
/// none when it has neither.
pub open spec fn vscode_font_style(h: HighlightStyleView) -> Option<Seq<char>> {
    let bold = match h.font_weight {
        Some(w) => is_bold_weight(w),
        None => false,
    };
    match h.font_style {
        Some(f) => if bold {
            Some(font_style_name(f) + " bold"@)
        } else {
            Some(font_style_name(f))
        },
        None => if bold {
            Some("bold"@)
        } else {
            None
        },
    }
}

/// The VSCode `fontStyle` of a Zed highlight style: its font style and
/// weight joined back into one keyword set.
fn font_style_keywords(style: &HighlightStyle) -> (r: Option<String>)
    ensures
        r.deep_view() == vscode_font_style(style@),
{
    let bold = match style.font_weight {
        Some(FontWeight::Number(n)) => n >= 700,
        Some(FontWeight::Named(n)) => match n {
            NamedFontWeight::Bold | NamedFontWeight::ExtraBold | NamedFontWeight::Black => true,
            _ => false,
        },
        None => false,
    };
    match style.font_style {
        Some(f) => {
            let mut s = font_style_string(f);
            if bold {
                s.append(" bold");
            }
            Some(s)
        },
        None => if bold {
            Some(owned("bold"))
        } else {
            None
        },
    }
}

/// The token color rule made for a Zed syntax key, its style and its scopes:
/// named after the key, with one scope or a list of them.
pub open spec fn syntax_rule(key: Seq<char>, h: HighlightStyleView, scopes: Seq<Seq<char>>) -> TokenColorRuleView {
    TokenColorRuleView {
        name: Some(key),
        scope: Some(
            if scopes.len() == 1 {
                TokenScopeView::Single(scopes[0])
            } else {
                TokenScopeView::Multiple(scopes)
            },
        ),
        settings: TokenColorSettingsView {
            foreground: h.color,
            background: h.background_color,
            font_style: vscode_font_style(h),
        },
    }
}

/// The rules of the syntax entries, in order; entries whose key has no
/// TextMate scopes are skipped.
pub open spec fn syntax_rules(entries: Seq<(Seq<char>, HighlightStyleView)>) -> Seq<TokenColorRuleView>
    decreases entries.len(),
{
    if entries.len() == 0 {
        Seq::empty()
    } else {
        let prev = syntax_rules(entries.drop_last());
        let (k, h) = entries.last();
        match zed_key_scopes(k) {
            Some(scopes) => prev.push(syntax_rule(k, h, scopes)),
            None => prev,
        }
    }
}

/// The token color rules of a Zed style's syntax map (none without one).
pub open spec fn zed_syntax_rules(syntax: Option<StrMap<HighlightStyle>>) -> Seq<TokenColorRuleView> {
    match syntax {
        Some(m) => syntax_rules(m.pairs()),
        None => Seq::empty(),
    }
}

/// Maps Zed syntax highlighting to VSCode token colors.
fn map_zed_syntax_to_vscode(zed_style: &ZedThemeStyle) -> (r: Vec<TokenColorRule>)
    ensures
        rules_view(r@) == zed_syntax_rules(zed_style.syntax),
{
    let mut rules: Vec<TokenColorRule> = Vec::new();
    if let Some(syntax) = &zed_style.syntax {
        let n = syntax.len();
        let mut i: usize = 0;
        assert(syntax.pairs().subrange(0, 0) =~= Seq::<(Seq<char>, HighlightStyleView)>::empty());
        assert(rules_view(rules@) =~= Seq::<TokenColorRuleView>::empty());
        while i < n
            invariant
                i <= n,
                n == syntax.pairs().len(),
                rules_view(rules@) == syntax_rules(syntax.pairs().subrange(0, i as int)),
            decreases n - i,
        {
            let ghost pre = syntax.pairs().subrange(0, i as int);
            assert(syntax.pairs().subrange(0, i + 1).drop_last() =~= pre);
            assert(syntax.pairs().subrange(0, i + 1).last() == syntax.pairs()[i as int]);
            let zed_key = syntax.key_at(i);
            let style = syntax.value_at(i);
            if let Some(scopes) = map_zed_key_to_textmate_scopes(zed_key.as_str()) {
                let settings = TokenColorSettings {
                    foreground: clone_opt(&style.color),
                    background: clone_opt(&style.background_color),
                    font_style: font_style_keywords(style),
                };
                let ghost sc = scopes.deep_view();
                let scope = if scopes.len() == 1 {
                    TokenScope::Single(scopes[0].clone())
                } else {
                    TokenScope::Multiple(scopes)
                };
                let rule = TokenColorRule { name: Some(zed_key.clone()), scope: Some(scope), settings };
                assert(rule@ == syntax_rule(zed_key@, style@, sc));
                let ghost before = rules@;
                rules.push(rule);
                assert(rules_view(rules@) =~= rules_view(before).push(rule@));
            }
            i += 1;
        }
        assert(syntax.pairs().subrange(0, n as int) =~= syntax.pairs());
    }
    rules
}

/// The VSCode theme type of a Zed appearance.
pub open spec fn theme_type_name(a: Appearance) -> Seq<char> {
    match a {
        Appearance::Dark => "dark"@,
        Appearance::Light => "light"@,
    }
}

/// The VSCode theme made from a Zed theme: same name, a type from the
/// appearance, the mapped workbench colors and token color rules.
pub open spec fn vscode_theme_of(t: ZedTheme) -> VsCodeThemeView {
    VsCodeThemeView {
        name: t.name@,
        theme_type: Some(theme_type_name(t.appearance)),
        colors: Some(zed_colors(t.style@)),
        token_colors: Some(TokenColorsView::Rules(zed_syntax_rules(t.style.syntax))),
        semantic_highlighting: None,
        semantic_token_colors: None,
        filename: slug_of(t.name@) + ".json"@,
    }
}

impl VsCodeTheme {
    /// Converts a Zed theme into a VSCode theme.
    pub fn from_zed(value: &ZedTheme) -> (r: VsCodeTheme)
        ensures
            r@ == vscode_theme_of(*value),
    {
        let theme_type = match value.appearance {
            Appearance::Dark => "dark",
            Appearance::Light => "light",
        };
        let mut theme = VsCodeTheme::new(value.name.clone());
        theme.theme_type = Some(owned(theme_type));
        let colors = map_zed_to_vscode_colors(&value.style);
        theme.colors = Some(colors);
        let token_colors = map_zed_syntax_to_vscode(&value.style);
        theme.token_colors = Some(TokenColors::Rules(token_colors));
        theme
    }

    /// Converts every theme of a Zed family, in order.
    pub fn from_zed_family(value: &ZedThemeFamily) -> (r: Vec<VsCodeTheme>)
        ensures
            r@.len() == value.themes@.len(),
            forall|i: int| 0 <= i < r@.len() ==> #[trigger] r@[i]@ == vscode_theme_of(value.themes@[i]),
    {
        let mut r: Vec<VsCodeTheme> = Vec::new();
        let mut i: usize = 0;
        while i < value.themes.len()
            invariant
                i <= value.themes@.len(),
                r@.len() == i,
                forall|j: int| 0 <= j < i ==> #[trigger] r@[j]@ == vscode_theme_of(value.themes@[j]),
            decreases value.themes@.len() - i,
        {
            r.push(VsCodeTheme::from_zed(&value.themes[i]));
            i += 1;
        }
        r
    }
}

} // verus!
