//! What single conversions carry over from their input, key by key.

use vstd::prelude::*;

use super::code_to_zed::zed_style_from_vscode;
use super::zed_to_code::{syntax_rules, vscode_theme_of, zed_key_scopes};
use crate::editors::vscode::theme::{theme_color, TokenColorRuleView, TokenColorsView, VsCodeThemeView};
use crate::editors::zed::theme::{HighlightStyleView, ZedTheme};
use super::icons::{file_icons_from, folder_expanded_key_of, folder_key_of, zed_icon_theme_of};
use super::icon_laws::underscored;
use crate::editors::vscode::icon_theme::{IconDefinitionView, VsCodeIconTheme};

verus! {

/// Every `terminal.ansi…` color of a VSCode theme is the matching ANSI
/// color of the Zed theme made from it.
pub proof fn lemma_terminal_colors_carry_over(t: VsCodeThemeView)
    ensures
        theme_color(t, "terminal.ansiBlack"@) matches Some(c) ==> zed_style_from_vscode(t).terminal_ansi_black == Some(c),
        theme_color(t, "terminal.ansiRed"@) matches Some(c) ==> zed_style_from_vscode(t).terminal_ansi_red == Some(c),
        theme_color(t, "terminal.ansiGreen"@) matches Some(c) ==> zed_style_from_vscode(t).terminal_ansi_green == Some(c),
        theme_color(t, "terminal.ansiYellow"@) matches Some(c) ==> zed_style_from_vscode(t).terminal_ansi_yellow == Some(c),
        theme_color(t, "terminal.ansiBlue"@) matches Some(c) ==> zed_style_from_vscode(t).terminal_ansi_blue == Some(c),
        theme_color(t, "terminal.ansiMagenta"@) matches Some(c) ==> zed_style_from_vscode(t).terminal_ansi_magenta
            == Some(c),
        theme_color(t, "terminal.ansiCyan"@) matches Some(c) ==> zed_style_from_vscode(t).terminal_ansi_cyan == Some(c),
        theme_color(t, "terminal.ansiWhite"@) matches Some(c) ==> zed_style_from_vscode(t).terminal_ansi_white == Some(c),
        theme_color(t, "terminal.ansiBrightBlack"@) matches Some(c) ==> zed_style_from_vscode(t).terminal_ansi_bright_black
            == Some(c),
        theme_color(t, "terminal.ansiBrightRed"@) matches Some(c) ==> zed_style_from_vscode(t).terminal_ansi_bright_red
            == Some(c),
        theme_color(t, "terminal.ansiBrightGreen"@) matches Some(c) ==> zed_style_from_vscode(t).terminal_ansi_bright_green
            == Some(c),
        theme_color(t, "terminal.ansiBrightYellow"@) matches Some(c)
            ==> zed_style_from_vscode(t).terminal_ansi_bright_yellow == Some(c),
        theme_color(t, "terminal.ansiBrightBlue"@) matches Some(c) ==> zed_style_from_vscode(t).terminal_ansi_bright_blue
            == Some(c),
        theme_color(t, "terminal.ansiBrightMagenta"@) matches Some(c)
            ==> zed_style_from_vscode(t).terminal_ansi_bright_magenta == Some(c),
        theme_color(t, "terminal.ansiBrightCyan"@) matches Some(c) ==> zed_style_from_vscode(t).terminal_ansi_bright_cyan
            == Some(c),
        theme_color(t, "terminal.ansiBrightWhite"@) matches Some(c)
            ==> zed_style_from_vscode(t).terminal_ansi_bright_white == Some(c),
{
}

/// A token color rule carries the colors of the syntax entry `(k, h)`: it
/// is named after `k`, its foreground is `h`'s color and its background
/// `h`'s background color.
pub open spec fn rule_of_entry(r: TokenColorRuleView, k: Seq<char>, h: HighlightStyleView) -> bool {
    &&& r.name == Some(k)
    &&& r.settings.foreground == h.color
    &&& r.settings.background == h.background_color
}

/// The rules made from syntax entries: each carries the colors of one
/// entry, and each entry whose key has TextMate scopes has a rule that
/// carries its colors.
proof fn lemma_rules_carry_entries(entries: Seq<(Seq<char>, HighlightStyleView)>)
    ensures
        forall|j: int|
            0 <= j < syntax_rules(entries).len() ==> exists|i: int|
                0 <= i < entries.len() && rule_of_entry(#[trigger] syntax_rules(entries)[j], entries[i].0, entries[i].1),
        forall|i: int|
            0 <= i < entries.len() && (#[trigger] zed_key_scopes(entries[i].0)) is Some ==> exists|j: int|
                0 <= j < syntax_rules(entries).len() && rule_of_entry(syntax_rules(entries)[j], entries[i].0, entries[i].1),
    decreases entries.len(),
{
    if entries.len() > 0 {
        let prev = entries.drop_last();
        lemma_rules_carry_entries(prev);
        let rs = syntax_rules(entries);
        let ps = syntax_rules(prev);
        let last = entries.len() - 1;
        assert forall|j: int| 0 <= j < rs.len() implies exists|i: int|
            0 <= i < entries.len() && rule_of_entry(#[trigger] rs[j], entries[i].0, entries[i].1) by {
            if j < ps.len() {
                assert(rs[j] == ps[j]);
                let i = choose|i: int| 0 <= i < prev.len() && rule_of_entry(ps[j], prev[i].0, prev[i].1);
                assert(entries[i] == prev[i]);
            } else {
                assert(rule_of_entry(rs[j], entries[last].0, entries[last].1));
            }
        }
        assert forall|i: int| 0 <= i < entries.len() && (#[trigger] zed_key_scopes(entries[i].0)) is Some implies exists|j: int|
            0 <= j < rs.len() && rule_of_entry(rs[j], entries[i].0, entries[i].1) by {
            if i < last {
                assert(entries[i] == prev[i]);
                assert(zed_key_scopes(prev[i].0) is Some);
                let j = choose|j: int| 0 <= j < ps.len() && rule_of_entry(ps[j], prev[i].0, prev[i].1);
                assert(rs[j] == ps[j]);
            } else {
                assert(rule_of_entry(rs[ps.len() as int], entries[i].0, entries[i].1));
            }
        }
    }
}

/// The token color rules of the VSCode theme made from `z`.
pub open spec fn token_rules_of(z: ZedTheme) -> Seq<TokenColorRuleView> {
    match vscode_theme_of(z).token_colors {
        Some(TokenColorsView::Rules(rules)) => rules,
        _ => Seq::empty(),
    }
}

/// The token color rules of the VSCode theme made from a Zed theme carry
/// the colors of its syntax: each rule the foreground and background of the
/// syntax entry it is named after, and each syntax entry whose key has
/// TextMate scopes has such a rule.
pub proof fn lemma_token_rules_keep_syntax_colors(z: ZedTheme)
    ensures
        vscode_theme_of(z).token_colors == Some(TokenColorsView::Rules(token_rules_of(z))),
        z.style.syntax is None ==> token_rules_of(z).len() == 0,
        z.style.syntax matches Some(m) ==> forall|j: int|
            0 <= j < token_rules_of(z).len() ==> exists|i: int|
                0 <= i < m.pairs().len() && rule_of_entry(#[trigger] token_rules_of(z)[j], m.pairs()[i].0, m.pairs()[i].1),
        z.style.syntax matches Some(m) ==> forall|i: int|
            0 <= i < m.pairs().len() && (#[trigger] zed_key_scopes(m.pairs()[i].0)) is Some ==> exists|j: int|
                0 <= j < token_rules_of(z).len() && rule_of_entry(token_rules_of(z)[j], m.pairs()[i].0, m.pairs()[i].1),
{
    if let Some(m) = z.style.syntax {
        lemma_rules_carry_entries(m.pairs());
    }
}

/// A definition that becomes a Zed file icon: it has an icon path and is
/// neither of the two folder icons.
pub open spec fn file_definition(d: (Seq<char>, IconDefinitionView), fk: Seq<char>, fek: Seq<char>) -> bool {
    d.1.icon_path is Some && d.0 != fk && d.0 != fek
}

/// The file icons made from definitions: a key without a leading `_` is
/// kept as the icon type, an underscored key loses its `_`; and every icon
/// is the path of a definition keyed by its type or by `_` and its type.
proof fn lemma_file_icon_keys(defs: Seq<(Seq<char>, IconDefinitionView)>, fk: Seq<char>, fek: Seq<char>)
    ensures
        file_icons_from(defs, fk, fek).dom().finite(),
        forall|i: int|
            0 <= i < defs.len() && #[trigger] file_definition(defs[i], fk, fek) ==> if underscored(defs[i].0) {
                file_icons_from(defs, fk, fek).contains_key(defs[i].0.drop_first())
            } else {
                file_icons_from(defs, fk, fek).contains_key(defs[i].0)
            },
        forall|x: Seq<char>|
            #[trigger] file_icons_from(defs, fk, fek).contains_key(x) ==> exists|i: int|
                0 <= i < defs.len() && file_definition(defs[i], fk, fek) && (defs[i].0 == x || defs[i].0 == seq!['_'] + x)
                    && file_icons_from(defs, fk, fek)[x] == defs[i].1.icon_path.unwrap(),
    decreases defs.len(),
{
    if defs.len() > 0 {
        let prev = defs.drop_last();
        lemma_file_icon_keys(prev, fk, fek);
        let r = file_icons_from(defs, fk, fek);
        let pr = file_icons_from(prev, fk, fek);
        let last = defs.len() - 1;
        let k = defs[last].0;
        if file_definition(defs[last], fk, fek) {
            if underscored(k) {
                assert(seq!['_'] + k.drop_first() =~= k);
            }
        }
        assert forall|i: int| 0 <= i < defs.len() && #[trigger] file_definition(defs[i], fk, fek) implies if underscored(
            defs[i].0,
        ) {
            r.contains_key(defs[i].0.drop_first())
        } else {
            r.contains_key(defs[i].0)
        } by {
            if i < last {
                assert(defs[i] == prev[i]);
                assert(file_definition(prev[i], fk, fek));
            }
        }
        assert forall|x: Seq<char>| #[trigger] r.contains_key(x) implies exists|i: int|
            0 <= i < defs.len() && file_definition(defs[i], fk, fek) && (defs[i].0 == x || defs[i].0 == seq!['_'] + x)
                && r[x] == defs[i].1.icon_path.unwrap() by {
            let stripped = if underscored(k) { k.drop_first() } else { k };
            if file_definition(defs[last], fk, fek) && x == stripped {
                if underscored(k) {
                    assert(seq!['_'] + k.drop_first() =~= k);
                }
                assert(r[x] == defs[last].1.icon_path.unwrap());
            } else {
                assert(pr.contains_key(x));
                let i = choose|i: int|
                    0 <= i < prev.len() && file_definition(prev[i], fk, fek) && (prev[i].0 == x || prev[i].0 == seq!['_'] + x)
                        && pr[x] == prev[i].1.icon_path.unwrap();
                assert(defs[i] == prev[i]);
            }
        }
    }
}

/// The Zed file icons made from a VSCode icon theme keep the definitions'
/// keys as icon types: a key without a leading `_` as it is, an
/// underscored key without its `_`; and each icon is the path of a
/// definition keyed by its type or by `_` and its type.
pub proof fn lemma_icon_types_keep_keys(v: VsCodeIconTheme, name: Seq<char>)
    ensures
        v.icon_definitions matches Some(m) ==> forall|i: int|
            0 <= i < m.pairs().len() && #[trigger] file_definition(m.pairs()[i], folder_key_of(v@), folder_expanded_key_of(v@))
                ==> (zed_icon_theme_of(v, name).file_icons matches Some(fi) && if underscored(m.pairs()[i].0) {
                fi.contains_key(m.pairs()[i].0.drop_first())
            } else {
                fi.contains_key(m.pairs()[i].0)
            }),
        v.icon_definitions matches Some(m) ==> (zed_icon_theme_of(v, name).file_icons matches Some(fi) ==> forall|x: Seq<char>|
            #[trigger] fi.contains_key(x) ==> exists|i: int|
                0 <= i < m.pairs().len() && file_definition(m.pairs()[i], folder_key_of(v@), folder_expanded_key_of(v@)) && (
                m.pairs()[i].0 == x || m.pairs()[i].0 == seq!['_'] + x) && fi[x] == m.pairs()[i].1.icon_path.unwrap()),
{
    if let Some(m) = v.icon_definitions {
        let fk = folder_key_of(v@);
        let fek = folder_expanded_key_of(v@);
        let defs = m.pairs();
        lemma_file_icon_keys(defs, fk, fek);
        let r = file_icons_from(defs, fk, fek);
        assert forall|i: int| 0 <= i < defs.len() && #[trigger] file_definition(defs[i], fk, fek) implies (zed_icon_theme_of(
            v,
            name,
        ).file_icons matches Some(fi) && if underscored(defs[i].0) {
            fi.contains_key(defs[i].0.drop_first())
        } else {
            fi.contains_key(defs[i].0)
        }) by {
            let x = if underscored(defs[i].0) { defs[i].0.drop_first() } else { defs[i].0 };
            assert(r.contains_key(x));
            vstd::set::axiom_set_contains_len(r.dom(), x);
        }
    }
}

} // verus!
