//! Conversion of VS Code themes (TextMate themes in disguise) into Zed themes.

use vstd::prelude::*;

use super::color::{alpha_color, translucent};
use crate::editors::vscode::theme::{
    rules_view, TokenColorRule, TokenColorRuleView, TokenColors, TokenColorsView, TokenScope, TokenScopeView,
    VsCodeTheme, VsCodeThemeView,
};
use crate::editors::zed::theme::{
    clone_opt, empty_style, Appearance, FontStyle, FontWeight, HighlightStyle, HighlightStyleView, PlayerColor,
    PlayerColorView, ZedTheme, ZedThemeStyle, ZedThemeStyleView,
};
use crate::strmap::StrMap;
use crate::text::{
    ascii_lower, ascii_lower_exec, chars_of, contains, contains_exec, owned, slice_eq, split_whitespace,
    strip_leading, words,
};

verus! {

// ---------------------------------------------------------------------------
// Small specifications shared by the mapping steps
// ---------------------------------------------------------------------------

/// A fully transparent color: `#0000` or `#00000000` (with any number of
/// leading `#`, or none).
pub open spec fn transparent_color(color: Seq<char>) -> bool {
    let t = strip_leading(color, '#');
    t == "0000"@ || t == "00000000"@
}

/// The color under `k`, if any.
pub open spec fn key_color(m: Map<Seq<char>, Seq<char>>, k: Seq<char>) -> Option<Seq<char>> {
    if m.contains_key(k) {
        Some(m[k])
    } else {
        None
    }
}

/// The color under `k`, if there is one and it is not fully transparent.
pub open spec fn opaque_color(m: Map<Seq<char>, Seq<char>>, k: Seq<char>) -> Option<Seq<char>> {
    if m.contains_key(k) && !transparent_color(m[k]) {
        Some(m[k])
    } else {
        None
    }
}

/// `a` if it is set, else `b` (`Option::or`).
pub open spec fn or(a: Option<Seq<char>>, b: Option<Seq<char>>) -> Option<Seq<char>> {
    match a {
        Some(_) => a,
        None => b,
    }
}

/// The translucent version of an optional color.
pub open spec fn alpha_of(c: Option<Seq<char>>, alpha: Seq<char>) -> Option<Seq<char>> {
    match c {
        Some(x) => Some(alpha_color(x, alpha)),
        None => None,
    }
}

/// Returns true if the color string represents a fully transparent value.
/// VSCode themes commonly use `#0000` or `#00000000` for "transparent /
/// inherit", which should not be mapped to Zed fields as they'd produce
/// invisible UI elements.
pub fn is_transparent(color: &str) -> (r: bool)
    ensures
        r == transparent_color(color@),
{
    let v = chars_of(color);
    let mut i: usize = 0;
    assert(v@.subrange(0, v@.len() as int) =~= v@);
    while i < v.len() && v[i] == '#'
        invariant
            v@ == color@,
            i <= v@.len(),
            strip_leading(color@, '#') == strip_leading(v@.subrange(i as int, v@.len() as int), '#'),
        decreases v@.len() - i,
    {
        proof {
            let t = v@.subrange(i as int, v@.len() as int);
            assert(t.drop_first() =~= v@.subrange(i + 1, v@.len() as int));
        }
        i += 1;
    }
    let rest = v.as_slice().split_at(i).1;
    proof {
        let t = v@.subrange(i as int, v@.len() as int);
        assert(rest@ == t);
        assert(t.len() == 0 || t[0] != '#');
        assert(strip_leading(t, '#') == t);
    }
    let four = chars_of("0000");
    let eight = chars_of("00000000");
    slice_eq(rest, four.as_slice()) || slice_eq(rest, eight.as_slice())
}

/// A copy of the color under `key`.
pub fn color_at(colors: &StrMap<String>, key: &str) -> (r: Option<String>)
    ensures
        r.deep_view() == key_color(colors@, key@),
{
    match colors.get(key) {
        Some(c) => Some(c.clone()),
        None => None,
    }
}

/// A copy of the color under `key`, unless it is missing or transparent.
pub fn opaque_color_at(colors: &StrMap<String>, key: &str) -> (r: Option<String>)
    ensures
        r.deep_view() == opaque_color(colors@, key@),
{
    match colors.get(key) {
        Some(c) => if is_transparent(c.as_str()) {
            None
        } else {
            Some(c.clone())
        },
        None => None,
    }
}

/// A copy of an optional color.
pub fn copy_color(c: &Option<String>) -> (r: Option<String>)
    ensures
        r.deep_view() == c.deep_view(),
{
    match c {
        Some(s) => Some(s.clone()),
        None => None,
    }
}

/// The translucent version of an optional color.
pub fn alpha_opt(c: &Option<String>, alpha: &str) -> (r: Option<String>)
    ensures
        r.deep_view() == alpha_of(c.deep_view(), alpha@),
{
    match c {
        Some(s) => Some(translucent(s.as_str(), alpha)),
        None => None,
    }
}

/// Overwrites `slot` with `new` when `new` is set.
pub fn overwrite(slot: &mut Option<String>, new: Option<String>)
    ensures
        final(slot).deep_view() == or(new.deep_view(), old(slot).deep_view()),
{
    if new.is_some() {
        *slot = new;
    }
}

/// Fills `slot` with `v` when `slot` is unset.
pub fn fill(slot: &mut Option<String>, v: Option<String>)
    ensures
        final(slot).deep_view() == or(old(slot).deep_view(), v.deep_view()),
{
    if slot.is_none() {
        *slot = v;
    }
}

// ---------------------------------------------------------------------------
// Mapping of VSCode workbench colors
// ---------------------------------------------------------------------------

/// Editor base colors plus the surrounding chrome: status and title bars,
/// tabs, and the terminal foreground and background.
pub open spec fn base_and_chrome(m: Map<Seq<char>, Seq<char>>, s: ZedThemeStyleView) -> ZedThemeStyleView {
    ZedThemeStyleView {
        editor_background: or(key_color(m, "editor.background"@), s.editor_background),
        background: or(key_color(m, "editor.background"@), s.background),
        panel_background: or(key_color(m, "editor.background"@), s.panel_background),
        editor_foreground: or(key_color(m, "editor.foreground"@), s.editor_foreground),
        text: or(key_color(m, "editor.foreground"@), s.text),
        status_bar_background: or(key_color(m, "statusBar.background"@), s.status_bar_background),
        title_bar_background: or(key_color(m, "titleBar.activeBackground"@), s.title_bar_background),
        title_bar_inactive_background: or(
            key_color(m, "titleBar.inactiveBackground"@),
            s.title_bar_inactive_background,
        ),
        tab_active_background: or(key_color(m, "tab.activeBackground"@), s.tab_active_background),
        tab_inactive_background: or(key_color(m, "tab.inactiveBackground"@), s.tab_inactive_background),
        tab_bar_background: or(key_color(m, "editorGroupHeader.tabsBackground"@), s.tab_bar_background),
        terminal_foreground: or(key_color(m, "terminal.foreground"@), s.terminal_foreground),
        terminal_background: or(key_color(m, "editor.background"@), s.terminal_background),
        ..s
    }
}

/// Editor base colors plus the surrounding workspace chrome.
fn map_base_and_chrome_colors(vscode_colors: &StrMap<String>, zed_style: &mut ZedThemeStyle)
    ensures
        final(zed_style)@ == base_and_chrome(vscode_colors@, old(zed_style)@),
{
    overwrite(&mut zed_style.editor_background, color_at(vscode_colors, "editor.background"));
    overwrite(&mut zed_style.background, color_at(vscode_colors, "editor.background"));
    overwrite(&mut zed_style.panel_background, color_at(vscode_colors, "editor.background"));
    overwrite(&mut zed_style.editor_foreground, color_at(vscode_colors, "editor.foreground"));
    overwrite(&mut zed_style.text, color_at(vscode_colors, "editor.foreground"));
    overwrite(&mut zed_style.status_bar_background, color_at(vscode_colors, "statusBar.background"));
    overwrite(&mut zed_style.title_bar_background, color_at(vscode_colors, "titleBar.activeBackground"));
    overwrite(
        &mut zed_style.title_bar_inactive_background,
        color_at(vscode_colors, "titleBar.inactiveBackground"),
    );
    overwrite(&mut zed_style.tab_active_background, color_at(vscode_colors, "tab.activeBackground"));
    overwrite(&mut zed_style.tab_inactive_background, color_at(vscode_colors, "tab.inactiveBackground"));
    overwrite(&mut zed_style.tab_bar_background, color_at(vscode_colors, "editorGroupHeader.tabsBackground"));
    overwrite(&mut zed_style.terminal_foreground, color_at(vscode_colors, "terminal.foreground"));
    overwrite(&mut zed_style.terminal_background, color_at(vscode_colors, "editor.background"));
}


/// Editor surface decorations: line highlight, line numbers, gutter,
/// selection, sidebar, focus border and scrollbar.
pub open spec fn editor_surface(m: Map<Seq<char>, Seq<char>>, s: ZedThemeStyleView) -> ZedThemeStyleView {
    ZedThemeStyleView {
        editor_active_line_background: or(
            key_color(m, "editor.lineHighlightBackground"@),
            s.editor_active_line_background,
        ),
        editor_line_number: or(key_color(m, "editorLineNumber.foreground"@), s.editor_line_number),
        editor_active_line_number: or(
            key_color(m, "editorLineNumber.activeForeground"@),
            s.editor_active_line_number,
        ),
        editor_gutter_background: or(key_color(m, "editorGutter.background"@), s.editor_gutter_background),
        element_selected: or(key_color(m, "editor.selectionBackground"@), s.element_selected),
        surface_background: or(key_color(m, "sideBar.background"@), s.surface_background),
        elevated_surface_background: or(
            key_color(m, "sideBar.background"@),
            s.elevated_surface_background,
        ),
        border_focused: or(key_color(m, "focusBorder"@), s.border_focused),
        scrollbar_thumb_background: or(
            key_color(m, "scrollbarSlider.background"@),
            s.scrollbar_thumb_background,
        ),
        scrollbar_thumb_hover_background: or(
            key_color(m, "scrollbarSlider.hoverBackground"@),
            s.scrollbar_thumb_hover_background,
        ),
        ..s
    }
}

/// Editor surface decorations.
fn map_editor_surface_colors(vscode_colors: &StrMap<String>, zed_style: &mut ZedThemeStyle)
    ensures
        final(zed_style)@ == editor_surface(vscode_colors@, old(zed_style)@),
{
    overwrite(
        &mut zed_style.editor_active_line_background,
        color_at(vscode_colors, "editor.lineHighlightBackground"),
    );
    overwrite(&mut zed_style.editor_line_number, color_at(vscode_colors, "editorLineNumber.foreground"));
    overwrite(
        &mut zed_style.editor_active_line_number,
        color_at(vscode_colors, "editorLineNumber.activeForeground"),
    );
    overwrite(&mut zed_style.editor_gutter_background, color_at(vscode_colors, "editorGutter.background"));
    // Zed has no direct equivalent of the selection; it serves the
    // selection-like colors.
    overwrite(&mut zed_style.element_selected, color_at(vscode_colors, "editor.selectionBackground"));
    overwrite(&mut zed_style.surface_background, color_at(vscode_colors, "sideBar.background"));
    overwrite(&mut zed_style.elevated_surface_background, color_at(vscode_colors, "sideBar.background"));
    overwrite(&mut zed_style.border_focused, color_at(vscode_colors, "focusBorder"));
    overwrite(
        &mut zed_style.scrollbar_thumb_background,
        color_at(vscode_colors, "scrollbarSlider.background"),
    );
    overwrite(
        &mut zed_style.scrollbar_thumb_hover_background,
        color_at(vscode_colors, "scrollbarSlider.hoverBackground"),
    );
}

/// Text accents and links, plus UI accents that are only taken when they
/// are not fully transparent.
pub open spec fn text_accent(m: Map<Seq<char>, Seq<char>>, s: ZedThemeStyleView) -> ZedThemeStyleView {
    ZedThemeStyleView {
        search_match_background: or(
            opaque_color(m, "editor.findMatchHighlightBackground"@),
            s.search_match_background,
        ),
        text_accent: or(opaque_color(m, "textLink.foreground"@), s.text_accent),
        text_disabled: or(opaque_color(m, "disabledForeground"@), s.text_disabled),
        text_placeholder: or(opaque_color(m, "input.placeholderForeground"@), s.text_placeholder),
        link_text_hover: or(opaque_color(m, "textLink.activeForeground"@), s.link_text_hover),
        editor_highlighted_line_background: or(
            opaque_color(m, "editor.lineHighlightBackground"@),
            s.editor_highlighted_line_background,
        ),
        editor_document_highlight_bracket_background: or(
            opaque_color(m, "editorBracketMatch.background"@),
            s.editor_document_highlight_bracket_background,
        ),
        border_variant: or(opaque_color(m, "editorWidget.border"@), s.border_variant),
        element_active: or(opaque_color(m, "list.activeSelectionBackground"@), s.element_active),
        icon_accent: or(
            or(s.icon_accent, opaque_color(m, "activityBar.foreground"@)),
            opaque_color(m, "textLink.foreground"@),
        ),
        ..s
    }
}

/// Text accents and links, plus assorted opaque-guarded UI accents.
fn map_text_accent_colors(vscode_colors: &StrMap<String>, zed_style: &mut ZedThemeStyle)
    ensures
        final(zed_style)@ == text_accent(vscode_colors@, old(zed_style)@),
{
    overwrite(
        &mut zed_style.search_match_background,
        opaque_color_at(vscode_colors, "editor.findMatchHighlightBackground"),
    );
    overwrite(&mut zed_style.text_accent, opaque_color_at(vscode_colors, "textLink.foreground"));
    overwrite(&mut zed_style.text_disabled, opaque_color_at(vscode_colors, "disabledForeground"));
    overwrite(&mut zed_style.text_placeholder, opaque_color_at(vscode_colors, "input.placeholderForeground"));
    overwrite(&mut zed_style.link_text_hover, opaque_color_at(vscode_colors, "textLink.activeForeground"));
    overwrite(
        &mut zed_style.editor_highlighted_line_background,
        opaque_color_at(vscode_colors, "editor.lineHighlightBackground"),
    );
    overwrite(
        &mut zed_style.editor_document_highlight_bracket_background,
        opaque_color_at(vscode_colors, "editorBracketMatch.background"),
    );
    overwrite(&mut zed_style.border_variant, opaque_color_at(vscode_colors, "editorWidget.border"));
    overwrite(&mut zed_style.element_active, opaque_color_at(vscode_colors, "list.activeSelectionBackground"));
    // Accent icon color: prefer activityBar.foreground, fall back to
    // textLink.foreground.
    fill(&mut zed_style.icon_accent, opaque_color_at(vscode_colors, "activityBar.foreground"));
    fill(&mut zed_style.icon_accent, opaque_color_at(vscode_colors, "textLink.foreground"));
}

/// Indent guides, taken from VSCode where present, with an opacity-reduced
/// fallback derived from `tree.indentGuidesStroke`.
pub open spec fn indent_guides(m: Map<Seq<char>, Seq<char>>, s: ZedThemeStyleView) -> ZedThemeStyleView {
    let stroke = opaque_color(m, "tree.indentGuidesStroke"@);
    ZedThemeStyleView {
        editor_indent_guide: or(
            or(s.editor_indent_guide, opaque_color(m, "editorIndentGuide.background"@)),
            opaque_color(m, "editorIndentGuide.background1"@),
        ),
        editor_indent_guide_active: or(
            or(s.editor_indent_guide_active, opaque_color(m, "editorIndentGuide.activeBackground"@)),
            opaque_color(m, "editorIndentGuide.activeBackground1"@),
        ),
        panel_indent_guide: or(s.panel_indent_guide, alpha_of(stroke, "66"@)),
        panel_indent_guide_active: or(s.panel_indent_guide_active, stroke),
        ..s
    }
}

/// Indent guides.
fn map_indent_guide_colors(vscode_colors: &StrMap<String>, zed_style: &mut ZedThemeStyle)
    ensures
        final(zed_style)@ == indent_guides(vscode_colors@, old(zed_style)@),
{
    fill(&mut zed_style.editor_indent_guide, opaque_color_at(vscode_colors, "editorIndentGuide.background"));
    fill(&mut zed_style.editor_indent_guide, opaque_color_at(vscode_colors, "editorIndentGuide.background1"));
    fill(
        &mut zed_style.editor_indent_guide_active,
        opaque_color_at(vscode_colors, "editorIndentGuide.activeBackground"),
    );
    fill(
        &mut zed_style.editor_indent_guide_active,
        opaque_color_at(vscode_colors, "editorIndentGuide.activeBackground1"),
    );
    let stroke = opaque_color_at(vscode_colors, "tree.indentGuidesStroke");
    // Reduce opacity for the non-active panel guide.
    fill(&mut zed_style.panel_indent_guide, alpha_opt(&stroke, "66"));
    fill(&mut zed_style.panel_indent_guide_active, stroke);
}

/// Terminal ANSI colors.
pub open spec fn terminal(m: Map<Seq<char>, Seq<char>>, s: ZedThemeStyleView) -> ZedThemeStyleView {
    ZedThemeStyleView {
        terminal_ansi_black: or(key_color(m, "terminal.ansiBlack"@), s.terminal_ansi_black),
        terminal_ansi_red: or(key_color(m, "terminal.ansiRed"@), s.terminal_ansi_red),
        terminal_ansi_green: or(key_color(m, "terminal.ansiGreen"@), s.terminal_ansi_green),
        terminal_ansi_yellow: or(key_color(m, "terminal.ansiYellow"@), s.terminal_ansi_yellow),
        terminal_ansi_blue: or(key_color(m, "terminal.ansiBlue"@), s.terminal_ansi_blue),
        terminal_ansi_magenta: or(key_color(m, "terminal.ansiMagenta"@), s.terminal_ansi_magenta),
        terminal_ansi_cyan: or(key_color(m, "terminal.ansiCyan"@), s.terminal_ansi_cyan),
        terminal_ansi_white: or(key_color(m, "terminal.ansiWhite"@), s.terminal_ansi_white),
        terminal_ansi_bright_black: or(key_color(m, "terminal.ansiBrightBlack"@), s.terminal_ansi_bright_black),
        terminal_ansi_bright_red: or(key_color(m, "terminal.ansiBrightRed"@), s.terminal_ansi_bright_red),
        terminal_ansi_bright_green: or(key_color(m, "terminal.ansiBrightGreen"@), s.terminal_ansi_bright_green),
        terminal_ansi_bright_yellow: or(
            key_color(m, "terminal.ansiBrightYellow"@),
            s.terminal_ansi_bright_yellow,
        ),
        terminal_ansi_bright_blue: or(key_color(m, "terminal.ansiBrightBlue"@), s.terminal_ansi_bright_blue),
        terminal_ansi_bright_magenta: or(
            key_color(m, "terminal.ansiBrightMagenta"@),
            s.terminal_ansi_bright_magenta,
        ),
        terminal_ansi_bright_cyan: or(key_color(m, "terminal.ansiBrightCyan"@), s.terminal_ansi_bright_cyan),
        terminal_ansi_bright_white: or(key_color(m, "terminal.ansiBrightWhite"@), s.terminal_ansi_bright_white),
        ..s
    }
}

/// Maps terminal ANSI colors from VSCode to Zed.
fn map_terminal_colors(vscode_colors: &StrMap<String>, zed_style: &mut ZedThemeStyle)
    ensures
        final(zed_style)@ == terminal(vscode_colors@, old(zed_style)@),
{
    overwrite(&mut zed_style.terminal_ansi_black, color_at(vscode_colors, "terminal.ansiBlack"));
    overwrite(&mut zed_style.terminal_ansi_red, color_at(vscode_colors, "terminal.ansiRed"));
    overwrite(&mut zed_style.terminal_ansi_green, color_at(vscode_colors, "terminal.ansiGreen"));
    overwrite(&mut zed_style.terminal_ansi_yellow, color_at(vscode_colors, "terminal.ansiYellow"));
    overwrite(&mut zed_style.terminal_ansi_blue, color_at(vscode_colors, "terminal.ansiBlue"));
    overwrite(&mut zed_style.terminal_ansi_magenta, color_at(vscode_colors, "terminal.ansiMagenta"));
    overwrite(&mut zed_style.terminal_ansi_cyan, color_at(vscode_colors, "terminal.ansiCyan"));
    overwrite(&mut zed_style.terminal_ansi_white, color_at(vscode_colors, "terminal.ansiWhite"));
    overwrite(&mut zed_style.terminal_ansi_bright_black, color_at(vscode_colors, "terminal.ansiBrightBlack"));
    overwrite(&mut zed_style.terminal_ansi_bright_red, color_at(vscode_colors, "terminal.ansiBrightRed"));
    overwrite(&mut zed_style.terminal_ansi_bright_green, color_at(vscode_colors, "terminal.ansiBrightGreen"));
    overwrite(&mut zed_style.terminal_ansi_bright_yellow, color_at(vscode_colors, "terminal.ansiBrightYellow"));
    overwrite(&mut zed_style.terminal_ansi_bright_blue, color_at(vscode_colors, "terminal.ansiBrightBlue"));
    overwrite(&mut zed_style.terminal_ansi_bright_magenta, color_at(vscode_colors, "terminal.ansiBrightMagenta"));
    overwrite(&mut zed_style.terminal_ansi_bright_cyan, color_at(vscode_colors, "terminal.ansiBrightCyan"));
    overwrite(&mut zed_style.terminal_ansi_bright_white, color_at(vscode_colors, "terminal.ansiBrightWhite"));
}

/// Diagnostic and git status colors taken from VSCode; each only fills a
/// field that is still unset, and transparent colors are skipped.
pub open spec fn diagnostics_and_git(m: Map<Seq<char>, Seq<char>>, s: ZedThemeStyleView) -> ZedThemeStyleView {
    ZedThemeStyleView {
        error: or(
            s.error,
            or(opaque_color(m, "editorError.foreground"@), opaque_color(m, "errorForeground"@)),
        ),
        warning: or(s.warning, opaque_color(m, "editorWarning.foreground"@)),
        info: or(s.info, opaque_color(m, "editorInfo.foreground"@)),
        hint: or(s.hint, opaque_color(m, "editorHint.foreground"@)),
        success: or(s.success, opaque_color(m, "terminal.ansiGreen"@)),
        modified: or(s.modified, opaque_color(m, "gitDecoration.modifiedResourceForeground"@)),
        deleted: or(s.deleted, opaque_color(m, "gitDecoration.deletedResourceForeground"@)),
        created: or(s.created, opaque_color(m, "gitDecoration.untrackedResourceForeground"@)),
        conflict: or(s.conflict, opaque_color(m, "gitDecoration.conflictingResourceForeground"@)),
        renamed: or(s.renamed, opaque_color(m, "gitDecoration.renamedResourceForeground"@)),
        ignored: or(s.ignored, opaque_color(m, "gitDecoration.ignoredResourceForeground"@)),
        ..s
    }
}

/// Extracts diagnostic and git status colors from VSCode theme colors.
/// Called before `set_zed_defaults()` so that theme-specific values take
/// precedence over the hardcoded fallbacks.
fn map_diagnostic_and_git_colors(vscode_colors: &StrMap<String>, zed_style: &mut ZedThemeStyle)
    ensures
        final(zed_style)@ == diagnostics_and_git(vscode_colors@, old(zed_style)@),
{
    // Diagnostic colors: prefer editor-specific, fall back to general.
    fill(&mut zed_style.error, opaque_color_at(vscode_colors, "editorError.foreground"));
    fill(&mut zed_style.error, opaque_color_at(vscode_colors, "errorForeground"));
    fill(&mut zed_style.warning, opaque_color_at(vscode_colors, "editorWarning.foreground"));
    fill(&mut zed_style.info, opaque_color_at(vscode_colors, "editorInfo.foreground"));
    fill(&mut zed_style.hint, opaque_color_at(vscode_colors, "editorHint.foreground"));
    // No direct VSCode "success": terminal.ansiGreen is a reasonable proxy.
    fill(&mut zed_style.success, opaque_color_at(vscode_colors, "terminal.ansiGreen"));
    // Git status colors.
    fill(&mut zed_style.modified, opaque_color_at(vscode_colors, "gitDecoration.modifiedResourceForeground"));
    fill(&mut zed_style.deleted, opaque_color_at(vscode_colors, "gitDecoration.deletedResourceForeground"));
    fill(&mut zed_style.created, opaque_color_at(vscode_colors, "gitDecoration.untrackedResourceForeground"));
    fill(
        &mut zed_style.conflict,
        opaque_color_at(vscode_colors, "gitDecoration.conflictingResourceForeground"),
    );
    fill(&mut zed_style.renamed, opaque_color_at(vscode_colors, "gitDecoration.renamedResourceForeground"));
    fill(&mut zed_style.ignored, opaque_color_at(vscode_colors, "gitDecoration.ignoredResourceForeground"));
}


/// Defaults for Zed-specific properties that have no VSCode counterpart,
/// derived from the colors already set.
pub open spec fn zed_defaults(s: ZedThemeStyleView) -> ZedThemeStyleView {
    derived_colors(
        ZedThemeStyleView {
            border: or(s.border, s.background),
            element_background: or(s.element_background, s.surface_background),
            element_hover: or(s.element_hover, s.surface_background),
            text_muted: or(s.text_muted, s.text),
            ..s
        },
    )
}

/// Sets reasonable defaults for Zed-specific properties.
fn set_zed_defaults(zed_style: &mut ZedThemeStyle)
    ensures
        final(zed_style)@ == zed_defaults(old(zed_style)@),
{
    // Default border: the background color.
    let bg = copy_color(&zed_style.background);
    fill(&mut zed_style.border, bg);
    // Element states based on the surface background.
    let surface = copy_color(&zed_style.surface_background);
    fill(&mut zed_style.element_background, surface);
    let surface = copy_color(&zed_style.surface_background);
    fill(&mut zed_style.element_hover, surface);
    // Muted text defaults to the text color.
    let text = copy_color(&zed_style.text);
    fill(&mut zed_style.text_muted, text);
    derive_zed_specific_colors(zed_style);
}

/// Colors for Zed-specific UI elements that do not exist in VSCode. Ghost
/// elements are derived before the surface defaults, so that the disabled
/// ghost element still sees the disabled element color as it was.
pub open spec fn derived_colors(s: ZedThemeStyleView) -> ZedThemeStyleView {
    semantic_status(editor_guides(icon_colors(surface_defaults(ghost_elements(s)))))
}

/// Derives color mappings for Zed-specific UI elements.
fn derive_zed_specific_colors(zed_style: &mut ZedThemeStyle)
    ensures
        final(zed_style)@ == derived_colors(old(zed_style)@),
{
    derive_ghost_elements(zed_style);
    derive_surface_defaults(zed_style);
    derive_icon_colors(zed_style);
    derive_editor_guide_colors(zed_style);
    set_semantic_status_colors(zed_style);
}

/// Ghost-element colors: the regular element states with reduced opacity.
pub open spec fn ghost_elements(s: ZedThemeStyleView) -> ZedThemeStyleView {
    ZedThemeStyleView {
        ghost_element_background: or(s.ghost_element_background, alpha_of(s.element_background, "66"@)),
        ghost_element_hover: or(s.ghost_element_hover, alpha_of(s.element_hover, "44"@)),
        ghost_element_active: or(s.ghost_element_active, alpha_of(s.element_active, "55"@)),
        ghost_element_selected: or(s.ghost_element_selected, alpha_of(s.element_selected, "44"@)),
        ghost_element_disabled: or(s.ghost_element_disabled, alpha_of(s.element_disabled, "33"@)),
        ..s
    }
}

/// Ghost-element colors.
fn derive_ghost_elements(zed_style: &mut ZedThemeStyle)
    ensures
        final(zed_style)@ == ghost_elements(old(zed_style)@),
{
    let c = alpha_opt(&zed_style.element_background, "66");
    fill(&mut zed_style.ghost_element_background, c);
    let c = alpha_opt(&zed_style.element_hover, "44");
    fill(&mut zed_style.ghost_element_hover, c);
    let c = alpha_opt(&zed_style.element_active, "55");
    fill(&mut zed_style.ghost_element_active, c);
    let c = alpha_opt(&zed_style.element_selected, "44");
    fill(&mut zed_style.ghost_element_selected, c);
    let c = alpha_opt(&zed_style.element_disabled, "33");
    fill(&mut zed_style.ghost_element_disabled, c);
}

/// Surface and chrome defaults: disabled element, toolbar, transparent
/// border and scrollbar track.
pub open spec fn surface_defaults(s: ZedThemeStyleView) -> ZedThemeStyleView {
    ZedThemeStyleView {
        element_disabled: or(s.element_disabled, s.element_background),
        toolbar_background: or(s.toolbar_background, or(s.tab_bar_background, s.editor_background)),
        border_transparent: or(s.border_transparent, Some("#00000000"@)),
        scrollbar_track_background: or(s.scrollbar_track_background, s.editor_background),
        ..s
    }
}

/// Surface and chrome defaults.
fn derive_surface_defaults(zed_style: &mut ZedThemeStyle)
    ensures
        final(zed_style)@ == surface_defaults(old(zed_style)@),
{
    let c = copy_color(&zed_style.element_background);
    fill(&mut zed_style.element_disabled, c);
    let tab_bar = copy_color(&zed_style.tab_bar_background);
    let editor = copy_color(&zed_style.editor_background);
    let mut toolbar = tab_bar;
    fill(&mut toolbar, editor);
    fill(&mut zed_style.toolbar_background, toolbar);
    // A transparent border is always fully transparent.
    fill(&mut zed_style.border_transparent, Some(owned("#00000000")));
    let c = copy_color(&zed_style.editor_background);
    fill(&mut zed_style.scrollbar_track_background, c);
}

/// Icon colors, from the corresponding text colors.
pub open spec fn icon_colors(s: ZedThemeStyleView) -> ZedThemeStyleView {
    ZedThemeStyleView {
        icon: or(s.icon, s.text),
        icon_muted: or(s.icon_muted, s.text_muted),
        icon_disabled: or(s.icon_disabled, s.text_disabled),
        icon_placeholder: or(s.icon_placeholder, s.text_placeholder),
        ..s
    }
}

/// Icon colors, derived from the corresponding text colors.
fn derive_icon_colors(zed_style: &mut ZedThemeStyle)
    ensures
        final(zed_style)@ == icon_colors(old(zed_style)@),
{
    let c = copy_color(&zed_style.text);
    fill(&mut zed_style.icon, c);
    let c = copy_color(&zed_style.text_muted);
    fill(&mut zed_style.icon_muted, c);
    let c = copy_color(&zed_style.text_disabled);
    fill(&mut zed_style.icon_disabled, c);
    let c = copy_color(&zed_style.text_placeholder);
    fill(&mut zed_style.icon_placeholder, c);
}

/// Editor-area derivations: subheader and drop-target backgrounds, pane
/// borders, indent guides, wrap guides, invisibles and document highlights.
pub open spec fn editor_guides(s: ZedThemeStyleView) -> ZedThemeStyleView {
    ZedThemeStyleView {
        editor_subheader_background: or(s.editor_subheader_background, s.background),
        drop_target_background: or(s.drop_target_background, alpha_of(s.background, "22"@)),
        pane_focused_border: or(s.pane_focused_border, s.border),
        pane_group_border: or(s.pane_group_border, s.border),
        panel_focused_border: or(s.panel_focused_border, s.border),
        editor_indent_guide: or(s.editor_indent_guide, alpha_of(s.border, "33"@)),
        editor_indent_guide_active: or(s.editor_indent_guide_active, alpha_of(s.border, "66"@)),
        panel_indent_guide: or(s.panel_indent_guide, alpha_of(s.border, "33"@)),
        panel_indent_guide_active: or(s.panel_indent_guide_active, alpha_of(s.border, "66"@)),
        panel_indent_guide_hover: or(s.panel_indent_guide_hover, alpha_of(s.border, "55"@)),
        editor_wrap_guide: or(s.editor_wrap_guide, alpha_of(s.editor_line_number, "44"@)),
        editor_active_wrap_guide: or(s.editor_active_wrap_guide, alpha_of(s.editor_line_number, "77"@)),
        editor_invisible: or(s.editor_invisible, alpha_of(s.text_muted, "33"@)),
        editor_document_highlight_read_background: or(
            s.editor_document_highlight_read_background,
            alpha_of(s.element_selected, "33"@),
        ),
        editor_document_highlight_write_background: or(
            s.editor_document_highlight_write_background,
            alpha_of(s.element_selected, "55"@),
        ),
        ..s
    }
}

/// Editor-area derivations.
fn derive_editor_guide_colors(zed_style: &mut ZedThemeStyle)
    ensures
        final(zed_style)@ == editor_guides(old(zed_style)@),
{
    let c = copy_color(&zed_style.background);
    fill(&mut zed_style.editor_subheader_background, c);
    let c = alpha_opt(&zed_style.background, "22");
    fill(&mut zed_style.drop_target_background, c);
    // Pane borders from the border color.
    let c = copy_color(&zed_style.border);
    fill(&mut zed_style.pane_focused_border, c);
    let c = copy_color(&zed_style.border);
    fill(&mut zed_style.pane_group_border, c);
    let c = copy_color(&zed_style.border);
    fill(&mut zed_style.panel_focused_border, c);
    // Indent guides from the border with reduced opacity.
    let c = alpha_opt(&zed_style.border, "33");
    fill(&mut zed_style.editor_indent_guide, c);
    let c = alpha_opt(&zed_style.border, "66");
    fill(&mut zed_style.editor_indent_guide_active, c);
    let c = alpha_opt(&zed_style.border, "33");
    fill(&mut zed_style.panel_indent_guide, c);
    let c = alpha_opt(&zed_style.border, "66");
    fill(&mut zed_style.panel_indent_guide_active, c);
    let c = alpha_opt(&zed_style.border, "55");
    fill(&mut zed_style.panel_indent_guide_hover, c);
    // Wrap guides from the line numbers.
    let c = alpha_opt(&zed_style.editor_line_number, "44");
    fill(&mut zed_style.editor_wrap_guide, c);
    let c = alpha_opt(&zed_style.editor_line_number, "77");
    fill(&mut zed_style.editor_active_wrap_guide, c);
    // Invisible characters.
    let c = alpha_opt(&zed_style.text_muted, "33");
    fill(&mut zed_style.editor_invisible, c);
    // Document highlights from the selection.
    let c = alpha_opt(&zed_style.element_selected, "33");
    fill(&mut zed_style.editor_document_highlight_read_background, c);
    let c = alpha_opt(&zed_style.element_selected, "55");
    fill(&mut zed_style.editor_document_highlight_write_background, c);
}

/// Semantic status colors for git, diagnostics and the special states.
/// Diagnostics come first, since the git defaults fall back to them.
pub open spec fn semantic_status(s: ZedThemeStyleView) -> ZedThemeStyleView {
    special_states(git_status(diagnostic_status(s)))
}

/// Sets semantic status colors for git, diagnostics, etc.
fn set_semantic_status_colors(zed_style: &mut ZedThemeStyle)
    ensures
        final(zed_style)@ == semantic_status(old(zed_style)@),
{
    set_diagnostic_status_defaults(zed_style);
    set_git_status_defaults(zed_style);
    set_special_state_defaults(zed_style);
}

/// Diagnostic color families (error, warning, success, info, hint), each
/// with a fallback color plus a derived background and border.
pub open spec fn diagnostic_status(s: ZedThemeStyleView) -> ZedThemeStyleView {
    let error = or(s.error, Some("#FF6B6B"@));
    let warning = or(s.warning, Some("#FFB347"@));
    let success = or(s.success, Some("#51CF66"@));
    let info = or(s.info, Some("#4DABF7"@));
    let hint = or(s.hint, Some("#9775FA"@));
    ZedThemeStyleView {
        error: error,
        error_background: or(s.error_background, alpha_of(error, "22"@)),
        error_border: or(s.error_border, error),
        warning: warning,
        warning_background: or(s.warning_background, alpha_of(warning, "22"@)),
        warning_border: or(s.warning_border, warning),
        success: success,
        success_background: or(s.success_background, alpha_of(success, "22"@)),
        success_border: or(s.success_border, success),
        info: info,
        info_background: or(s.info_background, alpha_of(info, "22"@)),
        info_border: or(s.info_border, info),
        hint: hint,
        hint_background: or(s.hint_background, alpha_of(hint, "22"@)),
        hint_border: or(s.hint_border, hint),
        ..s
    }
}

/// Diagnostic color families.
fn set_diagnostic_status_defaults(zed_style: &mut ZedThemeStyle)
    ensures
        final(zed_style)@ == diagnostic_status(old(zed_style)@),
{
    // Error colors (red family).
    fill(&mut zed_style.error, Some(owned("#FF6B6B")));
    let c = alpha_opt(&zed_style.error, "22");
    fill(&mut zed_style.error_background, c);
    let c = copy_color(&zed_style.error);
    fill(&mut zed_style.error_border, c);
    // Warning colors (yellow/orange family).
    fill(&mut zed_style.warning, Some(owned("#FFB347")));
    let c = alpha_opt(&zed_style.warning, "22");
    fill(&mut zed_style.warning_background, c);
    let c = copy_color(&zed_style.warning);
    fill(&mut zed_style.warning_border, c);
    // Success colors (green family).
    fill(&mut zed_style.success, Some(owned("#51CF66")));
    let c = alpha_opt(&zed_style.success, "22");
    fill(&mut zed_style.success_background, c);
    let c = copy_color(&zed_style.success);
    fill(&mut zed_style.success_border, c);
    // Info colors (blue family).
    fill(&mut zed_style.info, Some(owned("#4DABF7")));
    let c = alpha_opt(&zed_style.info, "22");
    fill(&mut zed_style.info_background, c);
    let c = copy_color(&zed_style.info);
    fill(&mut zed_style.info_border, c);
    // Hint colors (purple family).
    fill(&mut zed_style.hint, Some(owned("#9775FA")));
    let c = alpha_opt(&zed_style.hint, "22");
    fill(&mut zed_style.hint_background, c);
    let c = copy_color(&zed_style.hint);
    fill(&mut zed_style.hint_border, c);
}

/// Git status colors, defaulting to the diagnostic colors, each with a
/// derived background and border.
pub open spec fn git_status(s: ZedThemeStyleView) -> ZedThemeStyleView {
    let created = or(s.created, s.success);
    let modified = or(s.modified, s.warning);
    let deleted = or(s.deleted, s.error);
    let conflict = or(s.conflict, Some("#FF8C42"@));
    let renamed = or(s.renamed, s.info);
    ZedThemeStyleView {
        created: created,
        created_background: or(s.created_background, alpha_of(created, "22"@)),
        created_border: or(s.created_border, created),
        modified: modified,
        modified_background: or(s.modified_background, alpha_of(modified, "22"@)),
        modified_border: or(s.modified_border, modified),
        deleted: deleted,
        deleted_background: or(s.deleted_background, alpha_of(deleted, "22"@)),
        deleted_border: or(s.deleted_border, deleted),
        conflict: conflict,
        conflict_background: or(s.conflict_background, alpha_of(conflict, "22"@)),
        conflict_border: or(s.conflict_border, conflict),
        renamed: renamed,
        renamed_background: or(s.renamed_background, alpha_of(renamed, "22"@)),
        renamed_border: or(s.renamed_border, renamed),
        ..s
    }
}

/// Git status colors.
fn set_git_status_defaults(zed_style: &mut ZedThemeStyle)
    ensures
        final(zed_style)@ == git_status(old(zed_style)@),
{
    let c = copy_color(&zed_style.success);
    fill(&mut zed_style.created, c);
    let c = copy_color(&zed_style.warning);
    fill(&mut zed_style.modified, c);
    let c = copy_color(&zed_style.error);
    fill(&mut zed_style.deleted, c);
    fill(&mut zed_style.conflict, Some(owned("#FF8C42")));
    let c = copy_color(&zed_style.info);
    fill(&mut zed_style.renamed, c);

    let c = alpha_opt(&zed_style.created, "22");
    fill(&mut zed_style.created_background, c);
    let c = copy_color(&zed_style.created);
    fill(&mut zed_style.created_border, c);
    let c = alpha_opt(&zed_style.modified, "22");
    fill(&mut zed_style.modified_background, c);
    let c = copy_color(&zed_style.modified);
    fill(&mut zed_style.modified_border, c);
    let c = alpha_opt(&zed_style.deleted, "22");
    fill(&mut zed_style.deleted_background, c);
    let c = copy_color(&zed_style.deleted);
    fill(&mut zed_style.deleted_border, c);
    let c = alpha_opt(&zed_style.conflict, "22");
    fill(&mut zed_style.conflict_background, c);
    let c = copy_color(&zed_style.conflict);
    fill(&mut zed_style.conflict_border, c);
    let c = alpha_opt(&zed_style.renamed, "22");
    fill(&mut zed_style.renamed_background, c);
    let c = copy_color(&zed_style.renamed);
    fill(&mut zed_style.renamed_border, c);
}

/// The remaining special states: predictive, unreachable, ignored, hidden.
pub open spec fn special_states(s: ZedThemeStyleView) -> ZedThemeStyleView {
    let predictive = or(s.predictive, Some("#8E8E93"@));
    let ignored = or(s.ignored, Some("#8E8E93"@));
    ZedThemeStyleView {
        predictive: predictive,
        predictive_background: or(s.predictive_background, alpha_of(predictive, "22"@)),
        predictive_border: or(s.predictive_border, predictive),
        unreachable: or(s.unreachable, Some("#6C6C70"@)),
        ignored: ignored,
        hidden: or(s.hidden, or(ignored, Some("#48484A"@))),
        ..s
    }
}

/// Special-state colors.
fn set_special_state_defaults(zed_style: &mut ZedThemeStyle)
    ensures
        final(zed_style)@ == special_states(old(zed_style)@),
{
    fill(&mut zed_style.predictive, Some(owned("#8E8E93")));
    let c = alpha_opt(&zed_style.predictive, "22");
    fill(&mut zed_style.predictive_background, c);
    let c = copy_color(&zed_style.predictive);
    fill(&mut zed_style.predictive_border, c);
    fill(&mut zed_style.unreachable, Some(owned("#6C6C70")));
    fill(&mut zed_style.ignored, Some(owned("#8E8E93")));
    let mut hidden = copy_color(&zed_style.ignored);
    fill(&mut hidden, Some(owned("#48484A")));
    fill(&mut zed_style.hidden, hidden);
}

/// All VSCode workbench colors mapped onto a style, followed by the Zed
/// defaults. Later steps read what earlier ones wrote.
pub open spec fn ui_colors(m: Map<Seq<char>, Seq<char>>, s: ZedThemeStyleView) -> ZedThemeStyleView {
    zed_defaults(
        diagnostics_and_git(
            m,
            indent_guides(
                m,
                text_accent(m, editor_surface(m, terminal(m, base_and_chrome(m, s)))),
            ),
        ),
    )
}

/// Maps VSCode UI colors to a Zed theme style.
fn map_ui_colors(vscode_colors: &StrMap<String>, zed_style: &mut ZedThemeStyle)
    ensures
        final(zed_style)@ == ui_colors(vscode_colors@, old(zed_style)@),
{
    map_base_and_chrome_colors(vscode_colors, zed_style);
    map_terminal_colors(vscode_colors, zed_style);
    map_editor_surface_colors(vscode_colors, zed_style);
    map_text_accent_colors(vscode_colors, zed_style);
    map_indent_guide_colors(vscode_colors, zed_style);
    map_diagnostic_and_git_colors(vscode_colors, zed_style);
    set_zed_defaults(zed_style);
}


// ---------------------------------------------------------------------------
// Syntax highlighting
// ---------------------------------------------------------------------------

/// Does the character slice hold exactly the characters of `lit`?
fn lit_is(sv: &[char], lit: &str) -> (r: bool)
    ensures
        r == (sv@ == lit@),
{
    let lv = chars_of(lit);
    slice_eq(sv, lv.as_slice())
}

/// Does `lit` occur in the character slice?
fn lit_in(sv: &[char], lit: &str) -> (r: bool)
    ensures
        r == contains(sv@, lit@),
{
    let lv = chars_of(lit);
    contains_exec(sv, lv.as_slice())
}

/// The Zed syntax key of a TextMate scope that the table names exactly.
pub open spec fn textmate_exact_key(scope: Seq<char>) -> Option<Seq<char>> {
    if scope == "comment"@ || scope == "comment.line"@ || scope == "comment.block"@ {
        Some("comment"@)
    } else if scope == "comment.block.documentation"@ {
        Some("comment.doc"@)
    } else if scope == "keyword"@ || scope == "keyword.control"@ || scope == "keyword.control.flow"@ {
        Some("keyword"@)
    } else if scope == "keyword.operator"@ {
        Some("operator"@)
    } else if scope == "storage.type"@ || scope == "storage.modifier"@ {
        Some("keyword"@)
    } else if scope == "string"@ || scope == "string.quoted"@ || scope == "string.quoted.single"@ || scope == "string.quoted.double"@ {
        Some("string"@)
    } else if scope == "string.regexp"@ || scope == "string.regex"@ {
        Some("string.regex"@)
    } else if scope == "string.unquoted"@ {
        Some("string"@)
    } else if scope == "string.interpolated"@ {
        Some("string"@)
    } else if scope == "constant.numeric"@ || scope == "constant.numeric.integer"@ || scope == "constant.numeric.float"@ {
        Some("number"@)
    } else if scope == "constant.character"@ || scope == "constant.character.escape"@ {
        Some("string"@)
    } else if scope == "constant"@ || scope == "constant.other"@ {
        Some("constant"@)
    } else if scope == "constant.language"@ {
        Some("boolean"@)
    } else if scope == "constant.language.boolean"@ {
        Some("boolean"@)
    } else if scope == "constant.language.null"@ {
        Some("constant"@)
    } else if scope == "entity.name.function"@ || scope == "entity.name.function.member"@ {
        Some("function"@)
    } else if scope == "entity.name.function.constructor"@ {
        Some("constructor"@)
    } else if scope == "support.function"@ {
        Some("function"@)
    } else if scope == "meta.function-call"@ {
        Some("function"@)
    } else if scope == "entity.name.type"@ || scope == "entity.name.class"@ {
        Some("type"@)
    } else if scope == "entity.name.type.class"@ {
        Some("type"@)
    } else if scope == "entity.name.enum"@ {
        Some("enum"@)
    } else if scope == "entity.name.interface"@ {
        Some("type"@)
    } else if scope == "entity.name.struct"@ {
        Some("type"@)
    } else if scope == "support.type"@ {
        Some("type"@)
    } else if scope == "storage.type.class"@ {
        Some("type"@)
    } else if scope == "variable"@ || scope == "variable.other"@ {
        Some("variable"@)
    } else if scope == "variable.language"@ || scope == "variable.language.this"@ || scope == "variable.language.self"@ {
        Some("variable.special"@)
    } else if scope == "variable.parameter"@ {
        Some("variable"@)
    } else if scope == "variable.other.member"@ {
        Some("property"@)
    } else if scope == "variable.other.property"@ {
        Some("property"@)
    } else if scope == "entity.other.attribute-name"@ {
        Some("attribute"@)
    } else if scope == "entity.other.attribute-name.class"@ {
        Some("attribute"@)
    } else if scope == "entity.other.attribute-name.id"@ {
        Some("attribute"@)
    } else if scope == "punctuation"@ {
        Some("punctuation"@)
    } else if scope == "punctuation.definition"@ {
        Some("punctuation.delimiter"@)
    } else if scope == "punctuation.definition.string"@ {
        Some("punctuation.delimiter"@)
    } else if scope == "punctuation.definition.comment"@ {
        Some("punctuation.delimiter"@)
    } else if scope == "punctuation.separator"@ {
        Some("punctuation.delimiter"@)
    } else if scope == "punctuation.terminator"@ {
        Some("punctuation.delimiter"@)
    } else if scope == "punctuation.accessor"@ {
        Some("punctuation.delimiter"@)
    } else if scope == "punctuation.section.brackets"@ || scope == "punctuation.section.brackets.begin"@ || scope == "punctuation.section.brackets.end"@ {
        Some("punctuation.bracket"@)
    } else if scope == "punctuation.section.parens"@ || scope == "punctuation.section.parens.begin"@ || scope == "punctuation.section.parens.end"@ {
        Some("punctuation.bracket"@)
    } else if scope == "punctuation.section.braces"@ || scope == "punctuation.section.braces.begin"@ || scope == "punctuation.section.braces.end"@ {
        Some("punctuation.bracket"@)
    } else if scope == "markup.heading"@ || scope == "markup.heading.1"@ || scope == "markup.heading.2"@ || scope == "markup.heading.3"@ {
        Some("title"@)
    } else if scope == "markup.bold"@ {
        Some("emphasis.strong"@)
    } else if scope == "markup.italic"@ {
        Some("emphasis"@)
    } else if scope == "markup.underline"@ {
        Some("emphasis"@)
    } else if scope == "markup.strikethrough"@ {
        Some("emphasis"@)
    } else if scope == "markup.list"@ {
        Some("punctuation.list_marker"@)
    } else if scope == "markup.list.numbered"@ {
        Some("punctuation.list_marker"@)
    } else if scope == "markup.list.unnumbered"@ {
        Some("punctuation.list_marker"@)
    } else if scope == "markup.quote"@ {
        Some("string"@)
    } else if scope == "markup.raw"@ || scope == "markup.raw.inline"@ || scope == "markup.raw.block"@ {
        Some("string"@)
    } else if scope == "markup.fenced_code"@ {
        Some("string"@)
    } else if scope == "markup.underline.link"@ {
        Some("link_uri"@)
    } else if scope == "string.other.link"@ {
        Some("link_uri"@)
    } else if scope == "meta.link"@ {
        Some("link_text"@)
    } else if scope == "entity.name.tag"@ {
        Some("tag"@)
    } else if scope == "entity.name.tag.open"@ || scope == "entity.name.tag.close"@ {
        Some("tag"@)
    } else if scope == "meta.preprocessor"@ {
        Some("preproc"@)
    } else if scope == "keyword.control.directive"@ {
        Some("preproc"@)
    } else if scope == "entity.name.function.preprocessor"@ {
        Some("preproc"@)
    } else if scope == "entity.name.label"@ {
        Some("label"@)
    } else if scope == "invalid"@ || scope == "invalid.illegal"@ || scope == "invalid.deprecated"@ {
        Some("error"@)
    } else if scope == "support.class"@ {
        Some("type"@)
    } else if scope == "support.constant"@ {
        Some("constant"@)
    } else if scope == "support.variable"@ {
        Some("variable"@)
    } else if scope == "entity.name.module"@ || scope == "entity.name.namespace"@ {
        Some("type"@)
    } else {
        None
    }
}

/// The Zed syntax key of any other TextMate scope, by the words it contains;
/// `None` for a scope that cannot be classified.
pub open spec fn textmate_fallback_key(scope: Seq<char>) -> Option<Seq<char>> {
    if contains(scope, "comment.doc"@) || contains(scope, "documentation"@) {
        Some("comment.doc"@)
    } else if contains(scope, "comment"@) {
        Some("comment"@)
    } else if contains(scope, "string.regex"@) || contains(scope, "string.regexp"@) {
        Some("string.regex"@)
    } else if contains(scope, "string"@) {
        Some("string"@)
    } else if contains(scope, "keyword.operator"@) || contains(scope, "operator"@) {
        Some("operator"@)
    } else if contains(scope, "keyword"@) {
        Some("keyword"@)
    } else if contains(scope, "function.constructor"@) || contains(scope, "constructor"@) {
        Some("constructor"@)
    } else if contains(scope, "function"@) {
        Some("function"@)
    } else if contains(scope, "class"@) || contains(scope, "interface"@) || contains(scope, "struct"@) {
        Some("type"@)
    } else if contains(scope, "enum"@) {
        Some("enum"@)
    } else if contains(scope, "type"@) {
        Some("type"@)
    } else if contains(scope, "property"@) || contains(scope, "member"@) {
        Some("property"@)
    } else if contains(scope, "variable.special"@) || contains(scope, "variable.language"@) {
        Some("variable.special"@)
    } else if contains(scope, "variable"@) {
        Some("variable"@)
    } else if contains(scope, "attribute"@) {
        Some("attribute"@)
    } else if contains(scope, "constant.numeric"@) || contains(scope, "numeric"@) {
        Some("number"@)
    } else if contains(scope, "constant.language.boolean"@) || contains(scope, "boolean"@) {
        Some("boolean"@)
    } else if contains(scope, "constant"@) {
        Some("constant"@)
    } else if contains(scope, "punctuation.bracket"@) || contains(scope, "bracket"@) {
        Some("punctuation.bracket"@)
    } else if contains(scope, "punctuation.list"@) {
        Some("punctuation.list_marker"@)
    } else if contains(scope, "punctuation"@) {
        Some("punctuation"@)
    } else if contains(scope, "markup.heading"@) || contains(scope, "heading"@) {
        Some("title"@)
    } else if contains(scope, "markup.bold"@) || contains(scope, "bold"@) {
        Some("emphasis.strong"@)
    } else if contains(scope, "markup.italic"@) || contains(scope, "italic"@) {
        Some("emphasis"@)
    } else if contains(scope, "link"@) {
        Some("link_text"@)
    } else if contains(scope, "tag"@) {
        Some("tag"@)
    } else if contains(scope, "preprocessor"@) || contains(scope, "directive"@) {
        Some("preproc"@)
    } else if contains(scope, "label"@) {
        Some("label"@)
    } else if contains(scope, "invalid"@) || contains(scope, "illegal"@) {
        Some("error"@)
    } else {
        None
    }
}

/// The Zed syntax key of a TextMate scope.
pub open spec fn textmate_scope_key(scope: Seq<char>) -> Option<Seq<char>> {
    match textmate_exact_key(scope) {
        Some(k) => Some(k),
        None => textmate_fallback_key(scope),
    }
}

fn textmate_exact(sv: &[char]) -> (r: Option<String>)
    ensures
        r.deep_view() == textmate_exact_key(sv@),
{
    if lit_is(sv, "comment") || lit_is(sv, "comment.line") || lit_is(sv, "comment.block") {
        return Some(owned("comment"));
    }
    if lit_is(sv, "comment.block.documentation") {
        return Some(owned("comment.doc"));
    }
    if lit_is(sv, "keyword") || lit_is(sv, "keyword.control") || lit_is(sv, "keyword.control.flow") {
        return Some(owned("keyword"));
    }
    if lit_is(sv, "keyword.operator") {
        return Some(owned("operator"));
    }
    if lit_is(sv, "storage.type") || lit_is(sv, "storage.modifier") {
        return Some(owned("keyword"));
    }
    if lit_is(sv, "string") || lit_is(sv, "string.quoted") || lit_is(sv, "string.quoted.single") || lit_is(sv, "string.quoted.double") {
        return Some(owned("string"));
    }
    if lit_is(sv, "string.regexp") || lit_is(sv, "string.regex") {
        return Some(owned("string.regex"));
    }
    if lit_is(sv, "string.unquoted") {
        return Some(owned("string"));
    }
    if lit_is(sv, "string.interpolated") {
        return Some(owned("string"));
    }
    if lit_is(sv, "constant.numeric") || lit_is(sv, "constant.numeric.integer") || lit_is(sv, "constant.numeric.float") {
        return Some(owned("number"));
    }
    if lit_is(sv, "constant.character") || lit_is(sv, "constant.character.escape") {
        return Some(owned("string"));
    }
    if lit_is(sv, "constant") || lit_is(sv, "constant.other") {
        return Some(owned("constant"));
    }
    if lit_is(sv, "constant.language") {
        return Some(owned("boolean"));
    }
    if lit_is(sv, "constant.language.boolean") {
        return Some(owned("boolean"));
    }
    if lit_is(sv, "constant.language.null") {
        return Some(owned("constant"));
    }
    if lit_is(sv, "entity.name.function") || lit_is(sv, "entity.name.function.member") {
        return Some(owned("function"));
    }
    if lit_is(sv, "entity.name.function.constructor") {
        return Some(owned("constructor"));
    }
    if lit_is(sv, "support.function") {
        return Some(owned("function"));
    }
    if lit_is(sv, "meta.function-call") {
        return Some(owned("function"));
    }
    if lit_is(sv, "entity.name.type") || lit_is(sv, "entity.name.class") {
        return Some(owned("type"));
    }
    if lit_is(sv, "entity.name.type.class") {
        return Some(owned("type"));
    }
    if lit_is(sv, "entity.name.enum") {
        return Some(owned("enum"));
    }
    if lit_is(sv, "entity.name.interface") {
        return Some(owned("type"));
    }
    if lit_is(sv, "entity.name.struct") {
        return Some(owned("type"));
    }
    if lit_is(sv, "support.type") {
        return Some(owned("type"));
    }
    if lit_is(sv, "storage.type.class") {
        return Some(owned("type"));
    }
    if lit_is(sv, "variable") || lit_is(sv, "variable.other") {
        return Some(owned("variable"));
    }
    if lit_is(sv, "variable.language") || lit_is(sv, "variable.language.this") || lit_is(sv, "variable.language.self") {
        return Some(owned("variable.special"));
    }
    if lit_is(sv, "variable.parameter") {
        return Some(owned("variable"));
    }
    if lit_is(sv, "variable.other.member") {
        return Some(owned("property"));
    }
    if lit_is(sv, "variable.other.property") {
        return Some(owned("property"));
    }
    if lit_is(sv, "entity.other.attribute-name") {
        return Some(owned("attribute"));
    }
    if lit_is(sv, "entity.other.attribute-name.class") {
        return Some(owned("attribute"));
    }
    if lit_is(sv, "entity.other.attribute-name.id") {
        return Some(owned("attribute"));
    }
    if lit_is(sv, "punctuation") {
        return Some(owned("punctuation"));
    }
    if lit_is(sv, "punctuation.definition") {
        return Some(owned("punctuation.delimiter"));
    }
    if lit_is(sv, "punctuation.definition.string") {
        return Some(owned("punctuation.delimiter"));
    }
    if lit_is(sv, "punctuation.definition.comment") {
        return Some(owned("punctuation.delimiter"));
    }
    if lit_is(sv, "punctuation.separator") {
        return Some(owned("punctuation.delimiter"));
    }
    if lit_is(sv, "punctuation.terminator") {
        return Some(owned("punctuation.delimiter"));
    }
    if lit_is(sv, "punctuation.accessor") {
        return Some(owned("punctuation.delimiter"));
    }
    if lit_is(sv, "punctuation.section.brackets") || lit_is(sv, "punctuation.section.brackets.begin") || lit_is(sv, "punctuation.section.brackets.end") {
        return Some(owned("punctuation.bracket"));
    }
    if lit_is(sv, "punctuation.section.parens") || lit_is(sv, "punctuation.section.parens.begin") || lit_is(sv, "punctuation.section.parens.end") {
        return Some(owned("punctuation.bracket"));
    }
    if lit_is(sv, "punctuation.section.braces") || lit_is(sv, "punctuation.section.braces.begin") || lit_is(sv, "punctuation.section.braces.end") {
        return Some(owned("punctuation.bracket"));
    }
    if lit_is(sv, "markup.heading") || lit_is(sv, "markup.heading.1") || lit_is(sv, "markup.heading.2") || lit_is(sv, "markup.heading.3") {
        return Some(owned("title"));
    }
    if lit_is(sv, "markup.bold") {
        return Some(owned("emphasis.strong"));
    }
    if lit_is(sv, "markup.italic") {
        return Some(owned("emphasis"));
    }
    if lit_is(sv, "markup.underline") {
        return Some(owned("emphasis"));
    }
    if lit_is(sv, "markup.strikethrough") {
        return Some(owned("emphasis"));
    }
    if lit_is(sv, "markup.list") {
        return Some(owned("punctuation.list_marker"));
    }
    if lit_is(sv, "markup.list.numbered") {
        return Some(owned("punctuation.list_marker"));
    }
    if lit_is(sv, "markup.list.unnumbered") {
        return Some(owned("punctuation.list_marker"));
    }
    if lit_is(sv, "markup.quote") {
        return Some(owned("string"));
    }
    if lit_is(sv, "markup.raw") || lit_is(sv, "markup.raw.inline") || lit_is(sv, "markup.raw.block") {
        return Some(owned("string"));
    }
    if lit_is(sv, "markup.fenced_code") {
        return Some(owned("string"));
    }
    if lit_is(sv, "markup.underline.link") {
        return Some(owned("link_uri"));
    }
    if lit_is(sv, "string.other.link") {
        return Some(owned("link_uri"));
    }
    if lit_is(sv, "meta.link") {
        return Some(owned("link_text"));
    }
    if lit_is(sv, "entity.name.tag") {
        return Some(owned("tag"));
    }
    if lit_is(sv, "entity.name.tag.open") || lit_is(sv, "entity.name.tag.close") {
        return Some(owned("tag"));
    }
    if lit_is(sv, "meta.preprocessor") {
        return Some(owned("preproc"));
    }
    if lit_is(sv, "keyword.control.directive") {
        return Some(owned("preproc"));
    }
    if lit_is(sv, "entity.name.function.preprocessor") {
        return Some(owned("preproc"));
    }
    if lit_is(sv, "entity.name.label") {
        return Some(owned("label"));
    }
    if lit_is(sv, "invalid") || lit_is(sv, "invalid.illegal") || lit_is(sv, "invalid.deprecated") {
        return Some(owned("error"));
    }
    if lit_is(sv, "support.class") {
        return Some(owned("type"));
    }
    if lit_is(sv, "support.constant") {
        return Some(owned("constant"));
    }
    if lit_is(sv, "support.variable") {
        return Some(owned("variable"));
    }
    if lit_is(sv, "entity.name.module") || lit_is(sv, "entity.name.namespace") {
        return Some(owned("type"));
    }
    None
}

fn textmate_fallback(sv: &[char]) -> (r: Option<String>)
    ensures
        r.deep_view() == textmate_fallback_key(sv@),
{
    if lit_in(sv, "comment.doc") || lit_in(sv, "documentation") {
        return Some(owned("comment.doc"));
    }
    if lit_in(sv, "comment") {
        return Some(owned("comment"));
    }
    if lit_in(sv, "string.regex") || lit_in(sv, "string.regexp") {
        return Some(owned("string.regex"));
    }
    if lit_in(sv, "string") {
        return Some(owned("string"));
    }
    if lit_in(sv, "keyword.operator") || lit_in(sv, "operator") {
        return Some(owned("operator"));
    }
    if lit_in(sv, "keyword") {
        return Some(owned("keyword"));
    }
    if lit_in(sv, "function.constructor") || lit_in(sv, "constructor") {
        return Some(owned("constructor"));
    }
    if lit_in(sv, "function") {
        return Some(owned("function"));
    }
    if lit_in(sv, "class") || lit_in(sv, "interface") || lit_in(sv, "struct") {
        return Some(owned("type"));
    }
    if lit_in(sv, "enum") {
        return Some(owned("enum"));
    }
    if lit_in(sv, "type") {
        return Some(owned("type"));
    }
    if lit_in(sv, "property") || lit_in(sv, "member") {
        return Some(owned("property"));
    }
    if lit_in(sv, "variable.special") || lit_in(sv, "variable.language") {
        return Some(owned("variable.special"));
    }
    if lit_in(sv, "variable") {
        return Some(owned("variable"));
    }
    if lit_in(sv, "attribute") {
        return Some(owned("attribute"));
    }
    if lit_in(sv, "constant.numeric") || lit_in(sv, "numeric") {
        return Some(owned("number"));
    }
    if lit_in(sv, "constant.language.boolean") || lit_in(sv, "boolean") {
        return Some(owned("boolean"));
    }
    if lit_in(sv, "constant") {
        return Some(owned("constant"));
    }
    if lit_in(sv, "punctuation.bracket") || lit_in(sv, "bracket") {
        return Some(owned("punctuation.bracket"));
    }
    if lit_in(sv, "punctuation.list") {
        return Some(owned("punctuation.list_marker"));
    }
    if lit_in(sv, "punctuation") {
        return Some(owned("punctuation"));
    }
    if lit_in(sv, "markup.heading") || lit_in(sv, "heading") {
        return Some(owned("title"));
    }
    if lit_in(sv, "markup.bold") || lit_in(sv, "bold") {
        return Some(owned("emphasis.strong"));
    }
    if lit_in(sv, "markup.italic") || lit_in(sv, "italic") {
        return Some(owned("emphasis"));
    }
    if lit_in(sv, "link") {
        return Some(owned("link_text"));
    }
    if lit_in(sv, "tag") {
        return Some(owned("tag"));
    }
    if lit_in(sv, "preprocessor") || lit_in(sv, "directive") {
        return Some(owned("preproc"));
    }
    if lit_in(sv, "label") {
        return Some(owned("label"));
    }
    if lit_in(sv, "invalid") || lit_in(sv, "illegal") {
        return Some(owned("error"));
    }
    None
}

/// Maps a TextMate scope to a Zed syntax key.
pub fn map_textmate_scope_to_zed(scope: &str) -> (r: Option<String>)
    ensures
        r.deep_view() == textmate_scope_key(scope@),
{
    let sv = chars_of(scope);
    match textmate_exact(sv.as_slice()) {
        Some(k) => Some(k),
        None => textmate_fallback(sv.as_slice()),
    }
}


/// The words of a VSCode `fontStyle` mapped to Zed's font style and weight:
/// `italic` and `oblique` (in any letter case) set the style, the last one
/// winning; `bold` sets the weight 700; other words (`underline`,
/// `strikethrough`, unknown ones) are dropped.
pub open spec fn font_from_words(ws: Seq<Seq<char>>) -> (Option<FontStyle>, Option<FontWeight>)
    decreases ws.len(),
{
    if ws.len() == 0 {
        (None, None)
    } else {
        let prev = font_from_words(ws.drop_last());
        let t = ascii_lower(ws.last());
        if t == "italic"@ {
            (Some(FontStyle::Italic), prev.1)
        } else if t == "oblique"@ {
            (Some(FontStyle::Oblique), prev.1)
        } else if t == "bold"@ {
            (prev.0, Some(FontWeight::Number(700)))
        } else {
            prev
        }
    }
}

/// The Zed font style and weight of an optional VSCode `fontStyle`.
pub open spec fn font_style_parts(f: Option<Seq<char>>) -> (Option<FontStyle>, Option<FontWeight>) {
    match f {
        Some(s) => font_from_words(words(s)),
        None => (None, None),
    }
}

/// Parses a VSCode `fontStyle` set into Zed's `font_style` + `font_weight`.
///
/// VSCode `fontStyle` is a space-separated set of keywords (e.g. "bold italic
/// strikethrough"), or the empty string to unset. `italic`/`oblique` map to
/// `font_style` and `bold` to `font_weight`. `underline`/`strikethrough` have
/// no Zed equivalent and are dropped.
pub fn parse_font_style(font_style: &Option<String>) -> (r: (Option<FontStyle>, Option<FontWeight>))
    ensures
        r == font_style_parts(font_style.deep_view()),
{
    let mut style: Option<FontStyle> = None;
    let mut weight: Option<FontWeight> = None;
    if let Some(raw) = font_style {
        let cv = chars_of(raw.as_str());
        let ws = split_whitespace(cv.as_slice());
        let mut j: usize = 0;
        assert(ws.deep_view().subrange(0, 0) =~= Seq::<Seq<char>>::empty());
        while j < ws.len()
            invariant
                j <= ws@.len(),
                ws.deep_view() == words(raw@),
                (style, weight) == font_from_words(ws.deep_view().subrange(0, j as int)),
            decreases ws@.len() - j,
        {
            let ghost pre = ws.deep_view().subrange(0, j as int);
            let ghost next = ws.deep_view().subrange(0, j + 1);
            assert(next.drop_last() =~= pre);
            assert(ws@[j as int]@ =~= ws.deep_view()[j as int]);
            let t = ascii_lower_exec(ws[j].as_slice());
            if lit_is(t.as_slice(), "italic") {
                style = Some(FontStyle::Italic);
            } else if lit_is(t.as_slice(), "oblique") {
                style = Some(FontStyle::Oblique);
            } else if lit_is(t.as_slice(), "bold") {
                weight = Some(FontWeight::Number(700));
            }
            j += 1;
        }
        assert(ws.deep_view().subrange(0, ws@.len() as int) =~= ws.deep_view());
    }
    (style, weight)
}

/// The Zed highlight style of a VSCode token color rule.
pub open spec fn rule_highlight(r: TokenColorRuleView) -> HighlightStyleView {
    let parts = font_style_parts(r.settings.font_style);
    HighlightStyleView {
        color: r.settings.foreground,
        font_style: parts.0,
        font_weight: parts.1,
        background_color: r.settings.background,
    }
}

/// The scopes a rule names, in order.
pub open spec fn rule_scopes(r: TokenColorRuleView) -> Seq<Seq<char>> {
    match r.scope {
        Some(TokenScopeView::Single(s)) => seq![s],
        Some(TokenScopeView::Multiple(v)) => v,
        None => seq![],
    }
}

/// `m` with `h` stored under the Zed key of each scope, in order; scopes
/// without a Zed key are skipped.
pub open spec fn insert_scopes(
    m: Map<Seq<char>, HighlightStyleView>,
    scopes: Seq<Seq<char>>,
    h: HighlightStyleView,
) -> Map<Seq<char>, HighlightStyleView>
    decreases scopes.len(),
{
    if scopes.len() == 0 {
        m
    } else {
        let m1 = insert_scopes(m, scopes.drop_last(), h);
        match textmate_scope_key(scopes.last()) {
            Some(k) => m1.insert(k, h),
            None => m1,
        }
    }
}

/// `m` after applying one rule.
pub open spec fn apply_rule(m: Map<Seq<char>, HighlightStyleView>, r: TokenColorRuleView) -> Map<
    Seq<char>,
    HighlightStyleView,
> {
    insert_scopes(m, rule_scopes(r), rule_highlight(r))
}

/// `m` after applying the rules in order (a later rule wins).
pub open spec fn apply_rules(m: Map<Seq<char>, HighlightStyleView>, rules: Seq<TokenColorRuleView>) -> Map<
    Seq<char>,
    HighlightStyleView,
>
    decreases rules.len(),
{
    if rules.len() == 0 {
        m
    } else {
        apply_rule(apply_rules(m, rules.drop_last()), rules.last())
    }
}

/// Maps a single VSCode token color rule to Zed syntax entries.
fn map_token_rule_to_zed(rule: &TokenColorRule, syntax_map: &mut StrMap<HighlightStyle>)
    ensures
        final(syntax_map)@ == apply_rule(old(syntax_map)@, rule@),
{
    let (font_style, font_weight) = parse_font_style(&rule.settings.font_style);
    let highlight_style = HighlightStyle {
        color: clone_opt(&rule.settings.foreground),
        background_color: clone_opt(&rule.settings.background),
        font_style,
        font_weight,
    };
    let ghost h = highlight_style@;
    assert(h == rule_highlight(rule@));
    match &rule.scope {
        Some(TokenScope::Single(s)) => {
            let ghost start = syntax_map@;
            proof {
                let sc = seq![s@];
                assert(sc.drop_last() =~= Seq::<Seq<char>>::empty());
                assert(sc.last() == s@);
                assert(rule_scopes(rule@) == sc);
                assert(insert_scopes(start, sc.drop_last(), h) == start);
            }
            if let Some(zed_key) = map_textmate_scope_to_zed(s.as_str()) {
                syntax_map.insert(zed_key, highlight_style);
            }
        },
        Some(TokenScope::Multiple(v)) => {
            let ghost start = syntax_map@;
            let mut i: usize = 0;
            assert(v.deep_view().subrange(0, 0) =~= Seq::<Seq<char>>::empty());
            while i < v.len()
                invariant
                    i <= v@.len(),
                    highlight_style@ == h,
                    syntax_map@ == insert_scopes(start, v.deep_view().subrange(0, i as int), h),
                decreases v@.len() - i,
            {
                let ghost pre = v.deep_view().subrange(0, i as int);
                assert(v.deep_view().subrange(0, i + 1).drop_last() =~= pre);
                if let Some(zed_key) = map_textmate_scope_to_zed(v[i].as_str()) {
                    syntax_map.insert(zed_key, highlight_style.clone());
                }
                i += 1;
            }
            assert(v.deep_view().subrange(0, v@.len() as int) =~= v.deep_view());
        },
        None => {},
    }
}

/// The syntax map of a VSCode theme: its rules mapped in order, then the
/// default colors for every key still missing.
pub open spec fn vscode_syntax(t: VsCodeThemeView) -> Map<Seq<char>, HighlightStyleView> {
    with_default_syntax(
        match t.token_colors {
            Some(TokenColorsView::Rules(rules)) => apply_rules(Map::empty(), rules),
            _ => Map::empty(),
        },
    )
}

/// Maps VSCode token colors to Zed syntax highlighting.
fn map_syntax_highlighting(vscode_theme: &VsCodeTheme) -> (r: StrMap<HighlightStyle>)
    ensures
        r@ == vscode_syntax(vscode_theme@),
{
    let mut syntax_map: StrMap<HighlightStyle> = StrMap::new();
    if let Some(TokenColors::Rules(rules)) = &vscode_theme.token_colors {
        let mut i: usize = 0;
        assert(rules_view(rules@).subrange(0, 0) =~= Seq::<TokenColorRuleView>::empty());
        while i < rules.len()
            invariant
                i <= rules@.len(),
                syntax_map@ == apply_rules(Map::empty(), rules_view(rules@).subrange(0, i as int)),
            decreases rules@.len() - i,
        {
            let ghost pre = rules_view(rules@).subrange(0, i as int);
            assert(rules_view(rules@).subrange(0, i + 1).drop_last() =~= pre);
            map_token_rule_to_zed(&rules[i], &mut syntax_map);
            i += 1;
        }
        assert(rules_view(rules@).subrange(0, rules@.len() as int) =~= rules_view(rules@));
    }
    add_default_syntax_colors(&mut syntax_map);
    syntax_map
}

/// The default syntax colors: key, color, italic, bold.
pub open spec fn default_syntax_table() -> Seq<(Seq<char>, Seq<char>, bool, bool)> {
    seq![
        ("comment"@, "#6A9955"@, true, false),
        ("comment.doc"@, "#7C9F07"@, true, false),
        ("keyword"@, "#569CD6"@, false, false),
        ("string"@, "#CE9178"@, false, false),
        ("string.regex"@, "#D16969"@, false, false),
        ("number"@, "#B5CEA8"@, false, false),
        ("boolean"@, "#569CD6"@, false, false),
        ("constant"@, "#4FC1FF"@, false, false),
        ("function"@, "#DCDCAA"@, false, false),
        ("constructor"@, "#4EC9B0"@, false, false),
        ("type"@, "#4EC9B0"@, false, false),
        ("enum"@, "#4EC9B0"@, false, false),
        ("variable"@, "#9CDCFE"@, false, false),
        ("variable.special"@, "#C586C0"@, false, false),
        ("property"@, "#9CDCFE"@, false, false),
        ("attribute"@, "#92C5F7"@, false, false),
        ("operator"@, "#D4D4D4"@, false, false),
        ("punctuation"@, "#D4D4D4"@, false, false),
        ("punctuation.delimiter"@, "#D4D4D4"@, false, false),
        ("punctuation.bracket"@, "#FFD700"@, false, false),
        ("punctuation.list_marker"@, "#6A9955"@, false, false),
        ("title"@, "#4EC9B0"@, false, false),
        ("emphasis"@, "#C586C0"@, true, false),
        ("emphasis.strong"@, "#569CD6"@, false, true),
        ("link_text"@, "#3794FF"@, false, false),
        ("link_uri"@, "#3794FF"@, false, false),
        ("tag"@, "#569CD6"@, false, false),
        ("preproc"@, "#C586C0"@, false, false),
        ("label"@, "#C586C0"@, false, false),
        ("error"@, "#F44747"@, false, false),
        ("hint"@, "#3794FF"@, false, false),
        ("predictive"@, "#6A9955"@, false, false),
        ("primary"@, "#569CD6"@, false, false),
        ("embedded"@, "#9CDCFE"@, false, false)
    ]
}

/// The default style of a table entry.
pub open spec fn default_highlight(e: (Seq<char>, Seq<char>, bool, bool)) -> HighlightStyleView {
    HighlightStyleView {
        color: Some(e.1),
        font_style: if e.2 {
            Some(FontStyle::Italic)
        } else {
            None
        },
        font_weight: if e.3 {
            Some(FontWeight::Number(700))
        } else {
            None
        },
        background_color: None,
    }
}

/// `m` with the default style added for the first `n` table entries whose
/// key is missing.
pub open spec fn with_defaults_upto(m: Map<Seq<char>, HighlightStyleView>, n: nat) -> Map<
    Seq<char>,
    HighlightStyleView,
>
    decreases n,
{
    if n == 0 {
        m
    } else {
        let prev = with_defaults_upto(m, (n - 1) as nat);
        let e = default_syntax_table()[n - 1];
        if prev.contains_key(e.0) {
            prev
        } else {
            prev.insert(e.0, default_highlight(e))
        }
    }
}

/// `m` with a default style for every table key it lacks.
pub open spec fn with_default_syntax(m: Map<Seq<char>, HighlightStyleView>) -> Map<Seq<char>, HighlightStyleView> {
    with_defaults_upto(m, default_syntax_table().len())
}

/// The default syntax table, as executable values.
fn default_syntax_entries() -> (r: Vec<(&'static str, &'static str, bool, bool)>)
    ensures
        r@.len() == default_syntax_table().len(),
        forall|i: int|
            0 <= i < r@.len() ==> (#[trigger] r@[i].0@, r@[i].1@, r@[i].2, r@[i].3) == default_syntax_table()[i],
{
    let r = vec![
        ("comment", "#6A9955", true, false),
        ("comment.doc", "#7C9F07", true, false),
        ("keyword", "#569CD6", false, false),
        ("string", "#CE9178", false, false),
        ("string.regex", "#D16969", false, false),
        ("number", "#B5CEA8", false, false),
        ("boolean", "#569CD6", false, false),
        ("constant", "#4FC1FF", false, false),
        ("function", "#DCDCAA", false, false),
        ("constructor", "#4EC9B0", false, false),
        ("type", "#4EC9B0", false, false),
        ("enum", "#4EC9B0", false, false),
        ("variable", "#9CDCFE", false, false),
        ("variable.special", "#C586C0", false, false),
        ("property", "#9CDCFE", false, false),
        ("attribute", "#92C5F7", false, false),
        ("operator", "#D4D4D4", false, false),
        ("punctuation", "#D4D4D4", false, false),
        ("punctuation.delimiter", "#D4D4D4", false, false),
        ("punctuation.bracket", "#FFD700", false, false),
        ("punctuation.list_marker", "#6A9955", false, false),
        ("title", "#4EC9B0", false, false),
        ("emphasis", "#C586C0", true, false),
        ("emphasis.strong", "#569CD6", false, true),
        ("link_text", "#3794FF", false, false),
        ("link_uri", "#3794FF", false, false),
        ("tag", "#569CD6", false, false),
        ("preproc", "#C586C0", false, false),
        ("label", "#C586C0", false, false),
        ("error", "#F44747", false, false),
        ("hint", "#3794FF", false, false),
        ("predictive", "#6A9955", false, false),
        ("primary", "#569CD6", false, false),
        ("embedded", "#9CDCFE", false, false)
    ];
    r
}

/// Adds default syntax colors for the keys that are missing.
fn add_default_syntax_colors(syntax_map: &mut StrMap<HighlightStyle>)
    ensures
        final(syntax_map)@ == with_default_syntax(old(syntax_map)@),
{
    let defaults = default_syntax_entries();
    let ghost start = syntax_map@;
    let mut i: usize = 0;
    while i < defaults.len()
        invariant
            i <= defaults@.len(),
            defaults@.len() == default_syntax_table().len(),
            forall|j: int|
                0 <= j < defaults@.len() ==> (#[trigger] defaults@[j].0@, defaults@[j].1@, defaults@[j].2, defaults@[j].3)
                    == default_syntax_table()[j],
            syntax_map@ == with_defaults_upto(start, i as nat),
        decreases defaults@.len() - i,
    {
        let (key, color, italic, bold) = defaults[i];
        assert((key@, color@, italic, bold) == default_syntax_table()[i as int]);
        if !syntax_map.contains_key(key) {
            let style = HighlightStyle {
                color: Some(owned(color)),
                font_style: if italic {
                    Some(FontStyle::Italic)
                } else {
                    None
                },
                font_weight: if bold {
                    Some(FontWeight::Number(700))
                } else {
                    None
                },
                background_color: None,
            };
            syntax_map.insert(owned(key), style);
        }
        i += 1;
    }
}

/// Five player colors: the first from the text color (or white), the
/// others fixed.
pub open spec fn default_players(s: ZedThemeStyleView) -> Seq<PlayerColorView> {
    let base = match s.text {
        Some(t) => t,
        None => "#FFFFFF"@,
    };
    seq![
        PlayerColorView { cursor: Some(base), selection: Some(alpha_color(base, "22"@)), background: Some(base) },
        PlayerColorView { cursor: Some("#FF6B6B"@), selection: Some("#FF6B6B44"@), background: Some("#FF6B6B"@) },
        PlayerColorView { cursor: Some("#4ECDC4"@), selection: Some("#4ECDC444"@), background: Some("#4ECDC4"@) },
        PlayerColorView { cursor: Some("#45B7D1"@), selection: Some("#45B7D144"@), background: Some("#45B7D1"@) },
        PlayerColorView { cursor: Some("#FFA07A"@), selection: Some("#FFA07A44"@), background: Some("#FFA07A"@) },
    ]
}

/// One fixed player color.
fn player(cursor: &str, selection: &str) -> (r: PlayerColor)
    ensures
        r@ == (PlayerColorView { cursor: Some(cursor@), selection: Some(selection@), background: Some(cursor@) }),
{
    PlayerColor { cursor: Some(owned(cursor)), selection: Some(owned(selection)), background: Some(owned(cursor)) }
}

/// Creates default player colors for collaboration.
fn create_default_players(style: &ZedThemeStyle) -> (r: Vec<PlayerColor>)
    ensures
        r@.map_values(|p: PlayerColor| p@) == default_players(style@),
{
    let base: &str = match &style.text {
        Some(t) => t.as_str(),
        None => "#FFFFFF",
    };
    let first = PlayerColor {
        cursor: Some(owned(base)),
        selection: Some(translucent(base, "22")),
        background: Some(owned(base)),
    };
    let mut r = Vec::new();
    r.push(first);
    r.push(player("#FF6B6B", "#FF6B6B44"));
    r.push(player("#4ECDC4", "#4ECDC444"));
    r.push(player("#45B7D1", "#45B7D144"));
    r.push(player("#FFA07A", "#FFA07A44"));
    assert(r@.map_values(|p: PlayerColor| p@) =~= default_players(style@));
    r
}

/// The Zed style of a VSCode theme: its workbench colors mapped onto an
/// empty style (with the Zed defaults), then its syntax map and default
/// players.
pub open spec fn zed_style_from_vscode(t: VsCodeThemeView) -> ZedThemeStyleView {
    let s = match t.colors {
        Some(c) => ui_colors(c, empty_style()),
        None => empty_style(),
    };
    ZedThemeStyleView { syntax: Some(vscode_syntax(t)), players: Some(default_players(s)), ..s }
}

/// The Zed appearance of a VSCode theme: dark for the type `dark`, light
/// for any other type or none.
pub open spec fn appearance_of(t: VsCodeThemeView) -> Appearance {
    if t.theme_type == Some("dark"@) {
        Appearance::Dark
    } else {
        Appearance::Light
    }
}

impl ZedTheme {
    /// Converts a VSCode theme into a Zed theme: a theme of type `dark` becomes
    /// a dark Zed theme, any other a light one.
    pub fn from_vscode(value: &VsCodeTheme) -> (r: ZedTheme)
        ensures
            r.name@ == value.name@,
            r.appearance == appearance_of(value@),
            r.style@ == zed_style_from_vscode(value@),
    {
        let appearance = if value.is_dark_theme() {
            Appearance::Dark
        } else {
            Appearance::Light
        };
        let mut style = ZedThemeStyle::default();
        if let Some(colors) = &value.colors {
            map_ui_colors(colors, &mut style);
        }
        let syntax = map_syntax_highlighting(value);
        let players = create_default_players(&style);
        style.syntax = Some(syntax);
        style.players = Some(players);
        ZedTheme { name: value.name.clone(), appearance, style }
    }
}

} // verus!
