//! Properties of the conversions that span both directions.

use vstd::prelude::*;

use super::code_to_zed::{appearance_of, font_from_words, font_style_parts, key_color, zed_style_from_vscode};
use super::zed_to_code::{is_bold_weight, put, vscode_font_style, vscode_theme_of, zed_colors};
use crate::editors::vscode::theme::{theme_color, VsCodeThemeView};
use crate::editors::zed::theme::{Appearance, FontStyle, FontWeight, HighlightStyleView, ZedTheme, ZedThemeStyleView};
use crate::text::{ascii_lower, is_word, words, lemma_ascii_lower_unchanged, lemma_words_append_word, lemma_words_single};

verus! {

/// Converting a Zed theme to VSCode and back keeps its name and its
/// appearance.
pub proof fn lemma_zed_round_trip_keeps_name_and_appearance(t: ZedTheme)
    ensures
        vscode_theme_of(t).name == t.name@,
        appearance_of(vscode_theme_of(t)) == t.appearance,
{
    reveal_strlit("dark");
    reveal_strlit("light");
    assert("light"@.len() != "dark"@.len());
}

/// Converting a Zed theme to VSCode and back keeps its editor background,
/// as the background and as the editor background of the theme made back
/// (`r` is the Zed theme made from the VSCode one).
pub proof fn lemma_zed_round_trip_keeps_background(z: ZedTheme, r: ZedTheme)
    requires
        r.style@ == zed_style_from_vscode(vscode_theme_of(z)),
    ensures
        z.style@.editor_background matches Some(c) ==> r.style@.background == Some(c)
            && r.style@.editor_background == Some(c),
{
    lemma_zed_colors_editor(z.style@);
    let v = vscode_theme_of(z);
    let picked = key_color(zed_colors(z.style@), "editor.background"@);
    assert(zed_style_from_vscode(v).editor_background == picked);
    assert(zed_style_from_vscode(v).background == picked);
}

/// Converting a VSCode theme to Zed and back keeps its name, whether it is
/// dark, and its editor background and foreground colors (`z` is the Zed
/// theme made from `v`).
pub proof fn lemma_vscode_round_trip(v: VsCodeThemeView, z: ZedTheme)
    requires
        z.name@ == v.name,
        z.appearance == appearance_of(v),
        z.style@ == zed_style_from_vscode(v),
    ensures
        vscode_theme_of(z).name == v.name,
        (vscode_theme_of(z).theme_type == Some("dark"@)) == (v.theme_type == Some("dark"@)),
        theme_color(vscode_theme_of(z), "editor.background"@) == theme_color(v, "editor.background"@),
        theme_color(vscode_theme_of(z), "editor.foreground"@) == theme_color(v, "editor.foreground"@),
{
    reveal_strlit("dark");
    reveal_strlit("light");
    assert("light"@.len() != "dark"@.len());
    lemma_zed_colors_editor(z.style@);
    let picked = |k: Seq<char>|
        match v.colors {
            Some(c) => key_color(c, k),
            None => None,
        };
    assert(zed_style_from_vscode(v).editor_background == picked("editor.background"@));
    assert(zed_style_from_vscode(v).editor_foreground == picked("editor.foreground"@));
}

/// The VSCode colors of a Zed style hold its editor background under
/// `editor.background` and its editor foreground under `editor.foreground`.
pub proof fn lemma_zed_colors_editor(s: ZedThemeStyleView)
    ensures
        key_color(zed_colors(s), "editor.background"@) == s.editor_background,
        key_color(zed_colors(s), "editor.foreground"@) == s.editor_foreground,
{
    reveal_strlit("editor.background");
    reveal_strlit("editor.foreground");
    assert("editor.background"@[7] != "editor.foreground"@[7]);
    let m0 = Map::<Seq<char>, Seq<char>>::empty();
    let m1 = put(m0, "editor.background"@, s.editor_background);
    let m2 = put(m1, "editor.foreground"@, s.editor_foreground);
    assert(key_color(m2, "editor.background"@) == s.editor_background);
    assert(key_color(m2, "editor.foreground"@) == s.editor_foreground);
    let m3 = put(m2, "statusBar.background"@, s.status_bar_background);
    reveal_strlit("statusBar.background");
    assert(key_color(m3, "editor.background"@) == s.editor_background);
    assert(key_color(m3, "editor.foreground"@) == s.editor_foreground);
    let m4 = put(m3, "statusBar.foreground"@, s.text);
    reveal_strlit("statusBar.foreground");
    assert(key_color(m4, "editor.background"@) == s.editor_background);
    assert(key_color(m4, "editor.foreground"@) == s.editor_foreground);
    let m5 = put(m4, "titleBar.activeBackground"@, s.title_bar_background);
    reveal_strlit("titleBar.activeBackground");
    assert(key_color(m5, "editor.background"@) == s.editor_background);
    assert(key_color(m5, "editor.foreground"@) == s.editor_foreground);
    let m6 = put(m5, "titleBar.inactiveBackground"@, s.title_bar_inactive_background);
    reveal_strlit("titleBar.inactiveBackground");
    assert(key_color(m6, "editor.background"@) == s.editor_background);
    assert(key_color(m6, "editor.foreground"@) == s.editor_foreground);
    let m7 = put(m6, "tab.activeBackground"@, s.tab_active_background);
    reveal_strlit("tab.activeBackground");
    assert(key_color(m7, "editor.background"@) == s.editor_background);
    assert(key_color(m7, "editor.foreground"@) == s.editor_foreground);
    let m8 = put(m7, "tab.inactiveBackground"@, s.tab_inactive_background);
    reveal_strlit("tab.inactiveBackground");
    assert(key_color(m8, "editor.background"@) == s.editor_background);
    assert(key_color(m8, "editor.foreground"@) == s.editor_foreground);
    let m9 = put(m8, "editorGroupHeader.tabsBackground"@, s.tab_bar_background);
    reveal_strlit("editorGroupHeader.tabsBackground");
    assert(key_color(m9, "editor.background"@) == s.editor_background);
    assert(key_color(m9, "editor.foreground"@) == s.editor_foreground);
    let m10 = put(m9, "terminal.foreground"@, s.terminal_foreground);
    reveal_strlit("terminal.foreground");
    assert(key_color(m10, "editor.background"@) == s.editor_background);
    assert(key_color(m10, "editor.foreground"@) == s.editor_foreground);
    let m11 = put(m10, "terminal.background"@, s.terminal_background);
    reveal_strlit("terminal.background");
    assert(key_color(m11, "editor.background"@) == s.editor_background);
    assert(key_color(m11, "editor.foreground"@) == s.editor_foreground);
    let m12 = put(m11, "terminal.ansiBlack"@, s.terminal_ansi_black);
    reveal_strlit("terminal.ansiBlack");
    assert(key_color(m12, "editor.background"@) == s.editor_background);
    assert(key_color(m12, "editor.foreground"@) == s.editor_foreground);
    let m13 = put(m12, "terminal.ansiRed"@, s.terminal_ansi_red);
    reveal_strlit("terminal.ansiRed");
    assert(key_color(m13, "editor.background"@) == s.editor_background);
    assert(key_color(m13, "editor.foreground"@) == s.editor_foreground);
    let m14 = put(m13, "terminal.ansiGreen"@, s.terminal_ansi_green);
    reveal_strlit("terminal.ansiGreen");
    assert(key_color(m14, "editor.background"@) == s.editor_background);
    assert(key_color(m14, "editor.foreground"@) == s.editor_foreground);
    let m15 = put(m14, "terminal.ansiYellow"@, s.terminal_ansi_yellow);
    reveal_strlit("terminal.ansiYellow");
    assert(key_color(m15, "editor.background"@) == s.editor_background);
    assert(key_color(m15, "editor.foreground"@) == s.editor_foreground);
    let m16 = put(m15, "terminal.ansiBlue"@, s.terminal_ansi_blue);
    reveal_strlit("terminal.ansiBlue");
    assert(key_color(m16, "editor.background"@) == s.editor_background);
    assert(key_color(m16, "editor.foreground"@) == s.editor_foreground);
    let m17 = put(m16, "terminal.ansiMagenta"@, s.terminal_ansi_magenta);
    reveal_strlit("terminal.ansiMagenta");
    assert(key_color(m17, "editor.background"@) == s.editor_background);
    assert(key_color(m17, "editor.foreground"@) == s.editor_foreground);
    let m18 = put(m17, "terminal.ansiCyan"@, s.terminal_ansi_cyan);
    reveal_strlit("terminal.ansiCyan");
    assert(key_color(m18, "editor.background"@) == s.editor_background);
    assert(key_color(m18, "editor.foreground"@) == s.editor_foreground);
    let m19 = put(m18, "terminal.ansiWhite"@, s.terminal_ansi_white);
    reveal_strlit("terminal.ansiWhite");
    assert(key_color(m19, "editor.background"@) == s.editor_background);
    assert(key_color(m19, "editor.foreground"@) == s.editor_foreground);
    let m20 = put(m19, "terminal.ansiBrightBlack"@, s.terminal_ansi_bright_black);
    reveal_strlit("terminal.ansiBrightBlack");
    assert(key_color(m20, "editor.background"@) == s.editor_background);
    assert(key_color(m20, "editor.foreground"@) == s.editor_foreground);
    let m21 = put(m20, "terminal.ansiBrightRed"@, s.terminal_ansi_bright_red);
    reveal_strlit("terminal.ansiBrightRed");
    assert(key_color(m21, "editor.background"@) == s.editor_background);
    assert(key_color(m21, "editor.foreground"@) == s.editor_foreground);
    let m22 = put(m21, "terminal.ansiBrightGreen"@, s.terminal_ansi_bright_green);
    reveal_strlit("terminal.ansiBrightGreen");
    assert(key_color(m22, "editor.background"@) == s.editor_background);
    assert(key_color(m22, "editor.foreground"@) == s.editor_foreground);
    let m23 = put(m22, "terminal.ansiBrightYellow"@, s.terminal_ansi_bright_yellow);
    reveal_strlit("terminal.ansiBrightYellow");
    assert(key_color(m23, "editor.background"@) == s.editor_background);
    assert(key_color(m23, "editor.foreground"@) == s.editor_foreground);
    let m24 = put(m23, "terminal.ansiBrightBlue"@, s.terminal_ansi_bright_blue);
    reveal_strlit("terminal.ansiBrightBlue");
    assert(key_color(m24, "editor.background"@) == s.editor_background);
    assert(key_color(m24, "editor.foreground"@) == s.editor_foreground);
    let m25 = put(m24, "terminal.ansiBrightMagenta"@, s.terminal_ansi_bright_magenta);
    reveal_strlit("terminal.ansiBrightMagenta");
    assert(key_color(m25, "editor.background"@) == s.editor_background);
    assert(key_color(m25, "editor.foreground"@) == s.editor_foreground);
    let m26 = put(m25, "terminal.ansiBrightCyan"@, s.terminal_ansi_bright_cyan);
    reveal_strlit("terminal.ansiBrightCyan");
    assert(key_color(m26, "editor.background"@) == s.editor_background);
    assert(key_color(m26, "editor.foreground"@) == s.editor_foreground);
    let m27 = put(m26, "terminal.ansiBrightWhite"@, s.terminal_ansi_bright_white);
    reveal_strlit("terminal.ansiBrightWhite");
    assert(key_color(m27, "editor.background"@) == s.editor_background);
    assert(key_color(m27, "editor.foreground"@) == s.editor_foreground);
    let m28 = put(m27, "editorLineNumber.foreground"@, s.editor_line_number);
    reveal_strlit("editorLineNumber.foreground");
    assert(key_color(m28, "editor.background"@) == s.editor_background);
    assert(key_color(m28, "editor.foreground"@) == s.editor_foreground);
    let m29 = put(m28, "editorLineNumber.activeForeground"@, s.editor_active_line_number);
    reveal_strlit("editorLineNumber.activeForeground");
    assert(key_color(m29, "editor.background"@) == s.editor_background);
    assert(key_color(m29, "editor.foreground"@) == s.editor_foreground);
    let m30 = put(m29, "editor.lineHighlightBackground"@, s.editor_active_line_background);
    reveal_strlit("editor.lineHighlightBackground");
    assert(key_color(m30, "editor.background"@) == s.editor_background);
    assert(key_color(m30, "editor.foreground"@) == s.editor_foreground);
    let m31 = put(m30, "editorGutter.background"@, s.editor_gutter_background);
    reveal_strlit("editorGutter.background");
    assert(key_color(m31, "editor.background"@) == s.editor_background);
    assert(key_color(m31, "editor.foreground"@) == s.editor_foreground);
    let m32 = put(m31, "foreground"@, s.text);
    reveal_strlit("foreground");
    assert(key_color(m32, "editor.background"@) == s.editor_background);
    assert(key_color(m32, "editor.foreground"@) == s.editor_foreground);
    let m33 = put(m32, "focusBorder"@, s.border_focused);
    reveal_strlit("focusBorder");
    assert(key_color(m33, "editor.background"@) == s.editor_background);
    assert(key_color(m33, "editor.foreground"@) == s.editor_foreground);
    let m34 = put(m33, "sideBar.background"@, s.surface_background);
    reveal_strlit("sideBar.background");
    assert(key_color(m34, "editor.background"@) == s.editor_background);
    assert(key_color(m34, "editor.foreground"@) == s.editor_foreground);
    let m35 = put(m34, "sideBar.foreground"@, s.text);
    reveal_strlit("sideBar.foreground");
    assert(key_color(m35, "editor.background"@) == s.editor_background);
    assert(key_color(m35, "editor.foreground"@) == s.editor_foreground);
    let m36 = put(m35, "panel.background"@, s.panel_background);
    reveal_strlit("panel.background");
    assert(key_color(m36, "editor.background"@) == s.editor_background);
    assert(key_color(m36, "editor.foreground"@) == s.editor_foreground);
    let m37 = put(m36, "editor.selectionBackground"@, s.element_selected);
    reveal_strlit("editor.selectionBackground");
    assert(key_color(m37, "editor.background"@) == s.editor_background);
    assert(key_color(m37, "editor.foreground"@) == s.editor_foreground);
    let m38 = put(m37, "scrollbarSlider.background"@, s.scrollbar_thumb_background);
    reveal_strlit("scrollbarSlider.background");
    assert(key_color(m38, "editor.background"@) == s.editor_background);
    assert(key_color(m38, "editor.foreground"@) == s.editor_foreground);
    let m39 = put(m38, "scrollbarSlider.hoverBackground"@, s.scrollbar_thumb_hover_background);
    reveal_strlit("scrollbarSlider.hoverBackground");
    assert(key_color(m39, "editor.background"@) == s.editor_background);
    assert(key_color(m39, "editor.foreground"@) == s.editor_foreground);
    let m40 = put(m39, "editor.findMatchHighlightBackground"@, s.search_match_background);
    reveal_strlit("editor.findMatchHighlightBackground");
    assert("editor.findMatchHighlightBackground"@[8] != "editor.foreground"@[8]);
    assert(key_color(m40, "editor.background"@) == s.editor_background);
    assert(key_color(m40, "editor.foreground"@) == s.editor_foreground);
    let m41 = put(m40, "textLink.foreground"@, s.text_accent);
    reveal_strlit("textLink.foreground");
    assert(key_color(m41, "editor.background"@) == s.editor_background);
    assert(key_color(m41, "editor.foreground"@) == s.editor_foreground);
    let m42 = put(m41, "disabledForeground"@, s.text_disabled);
    reveal_strlit("disabledForeground");
    assert(key_color(m42, "editor.background"@) == s.editor_background);
    assert(key_color(m42, "editor.foreground"@) == s.editor_foreground);
    let m43 = put(m42, "input.placeholderForeground"@, s.text_placeholder);
    reveal_strlit("input.placeholderForeground");
    assert(key_color(m43, "editor.background"@) == s.editor_background);
    assert(key_color(m43, "editor.foreground"@) == s.editor_foreground);
    let m44 = put(m43, "textLink.activeForeground"@, s.link_text_hover);
    reveal_strlit("textLink.activeForeground");
    assert(key_color(m44, "editor.background"@) == s.editor_background);
    assert(key_color(m44, "editor.foreground"@) == s.editor_foreground);
    let m45 = put(m44, "editorWidget.border"@, s.border_variant);
    reveal_strlit("editorWidget.border");
    assert(key_color(m45, "editor.background"@) == s.editor_background);
    assert(key_color(m45, "editor.foreground"@) == s.editor_foreground);
    let m46 = put(m45, "list.activeSelectionBackground"@, s.element_active);
    reveal_strlit("list.activeSelectionBackground");
    assert(key_color(m46, "editor.background"@) == s.editor_background);
    assert(key_color(m46, "editor.foreground"@) == s.editor_foreground);
    let m47 = put(m46, "editorError.foreground"@, s.error);
    reveal_strlit("editorError.foreground");
    assert(key_color(m47, "editor.background"@) == s.editor_background);
    assert(key_color(m47, "editor.foreground"@) == s.editor_foreground);
    let m48 = put(m47, "errorForeground"@, s.error);
    reveal_strlit("errorForeground");
    assert(key_color(m48, "editor.background"@) == s.editor_background);
    assert(key_color(m48, "editor.foreground"@) == s.editor_foreground);
    let m49 = put(m48, "editorWarning.foreground"@, s.warning);
    reveal_strlit("editorWarning.foreground");
    assert(key_color(m49, "editor.background"@) == s.editor_background);
    assert(key_color(m49, "editor.foreground"@) == s.editor_foreground);
    let m50 = put(m49, "editorInfo.foreground"@, s.info);
    reveal_strlit("editorInfo.foreground");
    assert(key_color(m50, "editor.background"@) == s.editor_background);
    assert(key_color(m50, "editor.foreground"@) == s.editor_foreground);
    let m51 = put(m50, "editorHint.foreground"@, s.hint);
    reveal_strlit("editorHint.foreground");
    assert(key_color(m51, "editor.background"@) == s.editor_background);
    assert(key_color(m51, "editor.foreground"@) == s.editor_foreground);
    let m52 = put(m51, "gitDecoration.modifiedResourceForeground"@, s.modified);
    reveal_strlit("gitDecoration.modifiedResourceForeground");
    assert(key_color(m52, "editor.background"@) == s.editor_background);
    assert(key_color(m52, "editor.foreground"@) == s.editor_foreground);
    let m53 = put(m52, "gitDecoration.deletedResourceForeground"@, s.deleted);
    reveal_strlit("gitDecoration.deletedResourceForeground");
    assert(key_color(m53, "editor.background"@) == s.editor_background);
    assert(key_color(m53, "editor.foreground"@) == s.editor_foreground);
    let m54 = put(m53, "gitDecoration.untrackedResourceForeground"@, s.created);
    reveal_strlit("gitDecoration.untrackedResourceForeground");
    assert(key_color(m54, "editor.background"@) == s.editor_background);
    assert(key_color(m54, "editor.foreground"@) == s.editor_foreground);
    let m55 = put(m54, "gitDecoration.conflictingResourceForeground"@, s.conflict);
    reveal_strlit("gitDecoration.conflictingResourceForeground");
    assert(key_color(m55, "editor.background"@) == s.editor_background);
    assert(key_color(m55, "editor.foreground"@) == s.editor_foreground);
    let m56 = put(m55, "gitDecoration.renamedResourceForeground"@, s.renamed);
    reveal_strlit("gitDecoration.renamedResourceForeground");
    assert(key_color(m56, "editor.background"@) == s.editor_background);
    assert(key_color(m56, "editor.foreground"@) == s.editor_foreground);
    let m57 = put(m56, "gitDecoration.ignoredResourceForeground"@, s.ignored);
    reveal_strlit("gitDecoration.ignoredResourceForeground");
    assert(key_color(m57, "editor.background"@) == s.editor_background);
    assert(key_color(m57, "editor.foreground"@) == s.editor_foreground);
    let m58 = put(m57, "editorIndentGuide.background"@, s.editor_indent_guide);
    reveal_strlit("editorIndentGuide.background");
    assert(key_color(m58, "editor.background"@) == s.editor_background);
    assert(key_color(m58, "editor.foreground"@) == s.editor_foreground);
    let m59 = put(m58, "editorIndentGuide.activeBackground"@, s.editor_indent_guide_active);
    reveal_strlit("editorIndentGuide.activeBackground");
    assert(key_color(m59, "editor.background"@) == s.editor_background);
    assert(key_color(m59, "editor.foreground"@) == s.editor_foreground);
    assert(m59 == zed_colors(s));
}

/// A Zed highlight style that VSCode's `fontStyle` can carry: italic,
/// oblique or no font style, and weight 700 or none.
pub open spec fn vscode_representable(h: HighlightStyleView) -> bool {
    &&& (h.font_style is None || h.font_style == Some(FontStyle::Italic) || h.font_style == Some(
        FontStyle::Oblique,
    ))
    &&& (h.font_weight is None || h.font_weight == Some(FontWeight::Number(700)))
}

/// Italic, oblique and bold survive the trip from a Zed highlight style to
/// VSCode's `fontStyle` keywords and back.
pub proof fn lemma_font_style_round_trip(h: HighlightStyleView)
    requires
        vscode_representable(h),
    ensures
        font_style_parts(vscode_font_style(h)) == (h.font_style, h.font_weight),
{
    reveal_strlit("italic");
    reveal_strlit("oblique");
    reveal_strlit("bold");
    reveal_strlit(" bold");
    let it = "italic"@;
    let ob = "oblique"@;
    let bo = "bold"@;
    assert(is_word(it));
    assert(is_word(ob));
    assert(is_word(bo));
    lemma_words_single(it);
    lemma_words_single(ob);
    lemma_words_single(bo);
    lemma_words_append_word(it, bo);
    lemma_words_append_word(ob, bo);
    assert(it + " bold"@ =~= it + seq![' '] + bo);
    assert(ob + " bold"@ =~= ob + seq![' '] + bo);
    lemma_ascii_lower_unchanged(it);
    lemma_ascii_lower_unchanged(ob);
    lemma_ascii_lower_unchanged(bo);
    assert(seq![it, bo].drop_last() =~= seq![it]);
    assert(seq![ob, bo].drop_last() =~= seq![ob]);
    assert(seq![it].drop_last() =~= Seq::<Seq<char>>::empty());
    assert(seq![ob].drop_last() =~= Seq::<Seq<char>>::empty());
    assert(seq![bo].drop_last() =~= Seq::<Seq<char>>::empty());
    assert(it != bo && ob != bo && it != ob);
    assert(font_from_words(Seq::<Seq<char>>::empty()) == (None::<FontStyle>, None::<FontWeight>));
    assert(ascii_lower(seq![it].last()) == it);
    assert(ascii_lower(seq![bo].last()) == bo);
    assert(font_from_words(seq![it]) == (Some(FontStyle::Italic), None::<FontWeight>));
    assert(font_from_words(seq![ob]) == (Some(FontStyle::Oblique), None::<FontWeight>));
    assert(font_from_words(seq![bo]) == (None::<FontStyle>, Some(FontWeight::Number(700))));
    assert(font_from_words(seq![it, bo]) == (Some(FontStyle::Italic), Some(FontWeight::Number(700))));
    assert(font_from_words(seq![ob, bo]) == (Some(FontStyle::Oblique), Some(FontWeight::Number(700))));
    assert(is_bold_weight(FontWeight::Number(700)));
    assert(seq![it].push(bo) =~= seq![it, bo]);
    assert(seq![ob].push(bo) =~= seq![ob, bo]);
    assert(words(it + " bold"@) == seq![it, bo]);
    assert(words(ob + " bold"@) == seq![ob, bo]);
    if h.font_weight == Some(FontWeight::Number(700)) {
        if h.font_style == Some(FontStyle::Italic) {
            assert(vscode_font_style(h) == Some(it + " bold"@));
        } else if h.font_style == Some(FontStyle::Oblique) {
            assert(vscode_font_style(h) == Some(ob + " bold"@));
        } else {
            assert(vscode_font_style(h) == Some(bo));
        }
    } else {
        if h.font_style == Some(FontStyle::Italic) {
            assert(vscode_font_style(h) == Some(it));
        } else if h.font_style == Some(FontStyle::Oblique) {
            assert(vscode_font_style(h) == Some(ob));
        } else {
            assert(vscode_font_style(h) == None::<Seq<char>>);
        }
    }
}


} // verus!

