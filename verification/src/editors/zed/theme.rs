//! Zed theme data structures (the Zed v0.2.0 theme schema).
//!
//! A `ZedThemeStyle` holds one optional color per Zed style key; its view
//! `ZedThemeStyleView` holds the characters of each color.

use vstd::prelude::*;

use crate::strmap::{StrMap, ViewClone};

verus! {

/// A complete Zed theme family containing metadata and one or more themes.
#[derive(Debug)]
pub struct ZedThemeFamily {
    pub schema: Option<String>,
    pub author: String,
    pub name: String,
    pub themes: Vec<ZedTheme>,
}

/// A single theme within a theme family.
#[derive(Debug)]
pub struct ZedTheme {
    pub name: String,
    pub appearance: Appearance,
    pub style: ZedThemeStyle,
}

/// Theme appearance: light or dark.
#[derive(Debug, Clone, Copy, PartialEq, Eq, Structural)]
pub enum Appearance {
    Light,
    Dark,
}

/// Background appearance mode.
#[derive(Debug, Clone, Copy, PartialEq, Eq, Structural)]
pub enum BackgroundAppearance {
    Opaque,
    Transparent,
    Blurred,
}

/// Font style options.
#[derive(Debug, Clone, Copy, PartialEq, Eq, Structural)]
pub enum FontStyle {
    Normal,
    Italic,
    Oblique,
}

/// Named font weights.
#[derive(Debug, Clone, Copy, PartialEq, Eq, Structural)]
pub enum NamedFontWeight {
    Thin,
    ExtraLight,
    Light,
    Normal,
    Medium,
    SemiBold,
    Bold,
    ExtraBold,
    Black,
}

/// Font weight: a number or a named weight.
#[derive(Debug, Clone, Copy, PartialEq, Eq, Structural)]
pub enum FontWeight {
    Number(u16),
    Named(NamedFontWeight),
}

/// Player color for collaboration features.
#[derive(Debug)]
pub struct PlayerColor {
    pub cursor: Option<String>,
    pub selection: Option<String>,
    pub background: Option<String>,
}

/// The characters of a player's colors.
pub struct PlayerColorView {
    pub cursor: Option<Seq<char>>,
    pub selection: Option<Seq<char>>,
    pub background: Option<Seq<char>>,
}

impl View for PlayerColor {
    type V = PlayerColorView;

    open spec fn view(&self) -> PlayerColorView {
        PlayerColorView {
            cursor: self.cursor.deep_view(),
            selection: self.selection.deep_view(),
            background: self.background.deep_view(),
        }
    }
}

/// Syntax highlighting style.
#[derive(Debug)]
pub struct HighlightStyle {
    pub color: Option<String>,
    pub font_style: Option<FontStyle>,
    pub font_weight: Option<FontWeight>,
    pub background_color: Option<String>,
}

/// The view of a syntax highlighting style.
pub struct HighlightStyleView {
    pub color: Option<Seq<char>>,
    pub font_style: Option<FontStyle>,
    pub font_weight: Option<FontWeight>,
    pub background_color: Option<Seq<char>>,
}

impl View for HighlightStyle {
    type V = HighlightStyleView;

    open spec fn view(&self) -> HighlightStyleView {
        HighlightStyleView {
            color: self.color.deep_view(),
            font_style: self.font_style,
            font_weight: self.font_weight,
            background_color: self.background_color.deep_view(),
        }
    }
}

/// A copy of an optional string.
pub fn clone_opt(o: &Option<String>) -> (r: Option<String>)
    ensures
        r.deep_view() == o.deep_view(),
{
    match o {
        Some(s) => Some(s.clone()),
        None => None,
    }
}

impl Clone for HighlightStyle {
    fn clone(&self) -> (r: Self)
        ensures
            r@ == self@,
    {
        HighlightStyle {
            color: clone_opt(&self.color),
            font_style: self.font_style,
            font_weight: self.font_weight,
            background_color: clone_opt(&self.background_color),
        }
    }
}

impl Clone for PlayerColor {
    fn clone(&self) -> (r: Self)
        ensures
            r@ == self@,
    {
        PlayerColor {
            cursor: clone_opt(&self.cursor),
            selection: clone_opt(&self.selection),
            background: clone_opt(&self.background),
        }
    }
}

/// Main theme style containing all color and styling definitions.
#[derive(Debug)]
pub struct ZedThemeStyle {
    pub accents: Option<Vec<String>>,
    pub background_appearance: Option<BackgroundAppearance>,
    pub background: Option<String>,
    pub border: Option<String>,
    pub border_disabled: Option<String>,
    pub border_focused: Option<String>,
    pub border_selected: Option<String>,
    pub border_transparent: Option<String>,
    pub border_variant: Option<String>,
    pub elevated_surface_background: Option<String>,
    pub surface_background: Option<String>,
    pub drop_target_background: Option<String>,
    pub element_active: Option<String>,
    pub element_background: Option<String>,
    pub element_disabled: Option<String>,
    pub element_hover: Option<String>,
    pub element_selected: Option<String>,
    pub ghost_element_active: Option<String>,
    pub ghost_element_background: Option<String>,
    pub ghost_element_disabled: Option<String>,
    pub ghost_element_hover: Option<String>,
    pub ghost_element_selected: Option<String>,
    pub text: Option<String>,
    pub text_accent: Option<String>,
    pub text_disabled: Option<String>,
    pub text_muted: Option<String>,
    pub text_placeholder: Option<String>,
    pub icon: Option<String>,
    pub icon_accent: Option<String>,
    pub icon_disabled: Option<String>,
    pub icon_muted: Option<String>,
    pub icon_placeholder: Option<String>,
    pub status_bar_background: Option<String>,
    pub title_bar_background: Option<String>,
    pub title_bar_inactive_background: Option<String>,
    pub toolbar_background: Option<String>,
    pub tab_bar_background: Option<String>,
    pub tab_active_background: Option<String>,
    pub tab_inactive_background: Option<String>,
    pub search_match_background: Option<String>,
    pub panel_background: Option<String>,
    pub panel_focused_border: Option<String>,
    pub panel_indent_guide: Option<String>,
    pub panel_indent_guide_active: Option<String>,
    pub panel_indent_guide_hover: Option<String>,
    pub pane_focused_border: Option<String>,
    pub pane_group_border: Option<String>,
    pub scrollbar_thumb_background: Option<String>,
    pub scrollbar_thumb_border: Option<String>,
    pub scrollbar_thumb_hover_background: Option<String>,
    pub scrollbar_track_background: Option<String>,
    pub scrollbar_track_border: Option<String>,
    pub editor_active_line_background: Option<String>,
    pub editor_active_line_number: Option<String>,
    pub editor_active_wrap_guide: Option<String>,
    pub editor_background: Option<String>,
    pub editor_document_highlight_bracket_background: Option<String>,
    pub editor_document_highlight_read_background: Option<String>,
    pub editor_document_highlight_write_background: Option<String>,
    pub editor_foreground: Option<String>,
    pub editor_gutter_background: Option<String>,
    pub editor_highlighted_line_background: Option<String>,
    pub editor_indent_guide: Option<String>,
    pub editor_indent_guide_active: Option<String>,
    pub editor_invisible: Option<String>,
    pub editor_line_number: Option<String>,
    pub editor_subheader_background: Option<String>,
    pub editor_wrap_guide: Option<String>,
    pub terminal_ansi_background: Option<String>,
    pub terminal_ansi_black: Option<String>,
    pub terminal_ansi_blue: Option<String>,
    pub terminal_ansi_bright_black: Option<String>,
    pub terminal_ansi_bright_blue: Option<String>,
    pub terminal_ansi_bright_cyan: Option<String>,
    pub terminal_ansi_bright_green: Option<String>,
    pub terminal_ansi_bright_magenta: Option<String>,
    pub terminal_ansi_bright_red: Option<String>,
    pub terminal_ansi_bright_white: Option<String>,
    pub terminal_ansi_bright_yellow: Option<String>,
    pub terminal_ansi_cyan: Option<String>,
    pub terminal_ansi_dim_black: Option<String>,
    pub terminal_ansi_dim_blue: Option<String>,
    pub terminal_ansi_dim_cyan: Option<String>,
    pub terminal_ansi_dim_green: Option<String>,
    pub terminal_ansi_dim_magenta: Option<String>,
    pub terminal_ansi_dim_red: Option<String>,
    pub terminal_ansi_dim_white: Option<String>,
    pub terminal_ansi_dim_yellow: Option<String>,
    pub terminal_ansi_green: Option<String>,
    pub terminal_ansi_magenta: Option<String>,
    pub terminal_ansi_red: Option<String>,
    pub terminal_ansi_white: Option<String>,
    pub terminal_ansi_yellow: Option<String>,
    pub terminal_background: Option<String>,
    pub terminal_bright_foreground: Option<String>,
    pub terminal_dim_foreground: Option<String>,
    pub terminal_foreground: Option<String>,
    pub link_text_hover: Option<String>,
    pub conflict: Option<String>,
    pub conflict_background: Option<String>,
    pub conflict_border: Option<String>,
    pub created: Option<String>,
    pub created_background: Option<String>,
    pub created_border: Option<String>,
    pub deleted: Option<String>,
    pub deleted_background: Option<String>,
    pub deleted_border: Option<String>,
    pub error: Option<String>,
    pub error_background: Option<String>,
    pub error_border: Option<String>,
    pub hidden: Option<String>,
    pub hidden_background: Option<String>,
    pub hidden_border: Option<String>,
    pub hint: Option<String>,
    pub hint_background: Option<String>,
    pub hint_border: Option<String>,
    pub ignored: Option<String>,
    pub ignored_background: Option<String>,
    pub ignored_border: Option<String>,
    pub info: Option<String>,
    pub info_background: Option<String>,
    pub info_border: Option<String>,
    pub modified: Option<String>,
    pub modified_background: Option<String>,
    pub modified_border: Option<String>,
    pub predictive: Option<String>,
    pub predictive_background: Option<String>,
    pub predictive_border: Option<String>,
    pub renamed: Option<String>,
    pub renamed_background: Option<String>,
    pub renamed_border: Option<String>,
    pub success: Option<String>,
    pub success_background: Option<String>,
    pub success_border: Option<String>,
    pub unreachable: Option<String>,
    pub unreachable_background: Option<String>,
    pub unreachable_border: Option<String>,
    pub warning: Option<String>,
    pub warning_background: Option<String>,
    pub warning_border: Option<String>,
    pub players: Option<Vec<PlayerColor>>,
    pub syntax: Option<StrMap<HighlightStyle>>,
}

/// The view of a Zed theme style: the characters of every color it sets.
pub struct ZedThemeStyleView {
    pub accents: Option<Seq<Seq<char>>>,
    pub background_appearance: Option<BackgroundAppearance>,
    pub background: Option<Seq<char>>,
    pub border: Option<Seq<char>>,
    pub border_disabled: Option<Seq<char>>,
    pub border_focused: Option<Seq<char>>,
    pub border_selected: Option<Seq<char>>,
    pub border_transparent: Option<Seq<char>>,
    pub border_variant: Option<Seq<char>>,
    pub elevated_surface_background: Option<Seq<char>>,
    pub surface_background: Option<Seq<char>>,
    pub drop_target_background: Option<Seq<char>>,
    pub element_active: Option<Seq<char>>,
    pub element_background: Option<Seq<char>>,
    pub element_disabled: Option<Seq<char>>,
    pub element_hover: Option<Seq<char>>,
    pub element_selected: Option<Seq<char>>,
    pub ghost_element_active: Option<Seq<char>>,
    pub ghost_element_background: Option<Seq<char>>,
    pub ghost_element_disabled: Option<Seq<char>>,
    pub ghost_element_hover: Option<Seq<char>>,
    pub ghost_element_selected: Option<Seq<char>>,
    pub text: Option<Seq<char>>,
    pub text_accent: Option<Seq<char>>,
    pub text_disabled: Option<Seq<char>>,
    pub text_muted: Option<Seq<char>>,
    pub text_placeholder: Option<Seq<char>>,
    pub icon: Option<Seq<char>>,
    pub icon_accent: Option<Seq<char>>,
    pub icon_disabled: Option<Seq<char>>,
    pub icon_muted: Option<Seq<char>>,
    pub icon_placeholder: Option<Seq<char>>,
    pub status_bar_background: Option<Seq<char>>,
    pub title_bar_background: Option<Seq<char>>,
    pub title_bar_inactive_background: Option<Seq<char>>,
    pub toolbar_background: Option<Seq<char>>,
    pub tab_bar_background: Option<Seq<char>>,
    pub tab_active_background: Option<Seq<char>>,
    pub tab_inactive_background: Option<Seq<char>>,
    pub search_match_background: Option<Seq<char>>,
    pub panel_background: Option<Seq<char>>,
    pub panel_focused_border: Option<Seq<char>>,
    pub panel_indent_guide: Option<Seq<char>>,
    pub panel_indent_guide_active: Option<Seq<char>>,
    pub panel_indent_guide_hover: Option<Seq<char>>,
    pub pane_focused_border: Option<Seq<char>>,
    pub pane_group_border: Option<Seq<char>>,
    pub scrollbar_thumb_background: Option<Seq<char>>,
    pub scrollbar_thumb_border: Option<Seq<char>>,
    pub scrollbar_thumb_hover_background: Option<Seq<char>>,
    pub scrollbar_track_background: Option<Seq<char>>,
    pub scrollbar_track_border: Option<Seq<char>>,
    pub editor_active_line_background: Option<Seq<char>>,
    pub editor_active_line_number: Option<Seq<char>>,
    pub editor_active_wrap_guide: Option<Seq<char>>,
    pub editor_background: Option<Seq<char>>,
    pub editor_document_highlight_bracket_background: Option<Seq<char>>,
    pub editor_document_highlight_read_background: Option<Seq<char>>,
    pub editor_document_highlight_write_background: Option<Seq<char>>,
    pub editor_foreground: Option<Seq<char>>,
    pub editor_gutter_background: Option<Seq<char>>,
    pub editor_highlighted_line_background: Option<Seq<char>>,
    pub editor_indent_guide: Option<Seq<char>>,
    pub editor_indent_guide_active: Option<Seq<char>>,
    pub editor_invisible: Option<Seq<char>>,
    pub editor_line_number: Option<Seq<char>>,
    pub editor_subheader_background: Option<Seq<char>>,
    pub editor_wrap_guide: Option<Seq<char>>,
    pub terminal_ansi_background: Option<Seq<char>>,
    pub terminal_ansi_black: Option<Seq<char>>,
    pub terminal_ansi_blue: Option<Seq<char>>,
    pub terminal_ansi_bright_black: Option<Seq<char>>,
    pub terminal_ansi_bright_blue: Option<Seq<char>>,
    pub terminal_ansi_bright_cyan: Option<Seq<char>>,
    pub terminal_ansi_bright_green: Option<Seq<char>>,
    pub terminal_ansi_bright_magenta: Option<Seq<char>>,
    pub terminal_ansi_bright_red: Option<Seq<char>>,
    pub terminal_ansi_bright_white: Option<Seq<char>>,
    pub terminal_ansi_bright_yellow: Option<Seq<char>>,
    pub terminal_ansi_cyan: Option<Seq<char>>,
    pub terminal_ansi_dim_black: Option<Seq<char>>,
    pub terminal_ansi_dim_blue: Option<Seq<char>>,
    pub terminal_ansi_dim_cyan: Option<Seq<char>>,
    pub terminal_ansi_dim_green: Option<Seq<char>>,
    pub terminal_ansi_dim_magenta: Option<Seq<char>>,
    pub terminal_ansi_dim_red: Option<Seq<char>>,
    pub terminal_ansi_dim_white: Option<Seq<char>>,
    pub terminal_ansi_dim_yellow: Option<Seq<char>>,
    pub terminal_ansi_green: Option<Seq<char>>,
    pub terminal_ansi_magenta: Option<Seq<char>>,
    pub terminal_ansi_red: Option<Seq<char>>,
    pub terminal_ansi_white: Option<Seq<char>>,
    pub terminal_ansi_yellow: Option<Seq<char>>,
    pub terminal_background: Option<Seq<char>>,
    pub terminal_bright_foreground: Option<Seq<char>>,
    pub terminal_dim_foreground: Option<Seq<char>>,
    pub terminal_foreground: Option<Seq<char>>,
    pub link_text_hover: Option<Seq<char>>,
    pub conflict: Option<Seq<char>>,
    pub conflict_background: Option<Seq<char>>,
    pub conflict_border: Option<Seq<char>>,
    pub created: Option<Seq<char>>,
    pub created_background: Option<Seq<char>>,
    pub created_border: Option<Seq<char>>,
    pub deleted: Option<Seq<char>>,
    pub deleted_background: Option<Seq<char>>,
    pub deleted_border: Option<Seq<char>>,
    pub error: Option<Seq<char>>,
    pub error_background: Option<Seq<char>>,
    pub error_border: Option<Seq<char>>,
    pub hidden: Option<Seq<char>>,
    pub hidden_background: Option<Seq<char>>,
    pub hidden_border: Option<Seq<char>>,
    pub hint: Option<Seq<char>>,
    pub hint_background: Option<Seq<char>>,
    pub hint_border: Option<Seq<char>>,
    pub ignored: Option<Seq<char>>,
    pub ignored_background: Option<Seq<char>>,
    pub ignored_border: Option<Seq<char>>,
    pub info: Option<Seq<char>>,
    pub info_background: Option<Seq<char>>,
    pub info_border: Option<Seq<char>>,
    pub modified: Option<Seq<char>>,
    pub modified_background: Option<Seq<char>>,
    pub modified_border: Option<Seq<char>>,
    pub predictive: Option<Seq<char>>,
    pub predictive_background: Option<Seq<char>>,
    pub predictive_border: Option<Seq<char>>,
    pub renamed: Option<Seq<char>>,
    pub renamed_background: Option<Seq<char>>,
    pub renamed_border: Option<Seq<char>>,
    pub success: Option<Seq<char>>,
    pub success_background: Option<Seq<char>>,
    pub success_border: Option<Seq<char>>,
    pub unreachable: Option<Seq<char>>,
    pub unreachable_background: Option<Seq<char>>,
    pub unreachable_border: Option<Seq<char>>,
    pub warning: Option<Seq<char>>,
    pub warning_background: Option<Seq<char>>,
    pub warning_border: Option<Seq<char>>,
    pub players: Option<Seq<PlayerColorView>>,
    pub syntax: Option<Map<Seq<char>, HighlightStyleView>>,
}

/// The views of a sequence of player colors.
pub open spec fn players_view(p: Option<Vec<PlayerColor>>) -> Option<Seq<PlayerColorView>> {
    match p {
        Some(v) => Some(v@.map_values(|c: PlayerColor| c@)),
        None => None,
    }
}

/// The view of an optional syntax map.
pub open spec fn syntax_view(s: Option<StrMap<HighlightStyle>>) -> Option<Map<Seq<char>, HighlightStyleView>> {
    match s {
        Some(m) => Some(m@),
        None => None,
    }
}

impl View for ZedThemeStyle {
    type V = ZedThemeStyleView;

    open spec fn view(&self) -> ZedThemeStyleView {
        ZedThemeStyleView {
            accents: self.accents.deep_view(),
            background_appearance: self.background_appearance,
            background: self.background.deep_view(),
            border: self.border.deep_view(),
            border_disabled: self.border_disabled.deep_view(),
            border_focused: self.border_focused.deep_view(),
            border_selected: self.border_selected.deep_view(),
            border_transparent: self.border_transparent.deep_view(),
            border_variant: self.border_variant.deep_view(),
            elevated_surface_background: self.elevated_surface_background.deep_view(),
            surface_background: self.surface_background.deep_view(),
            drop_target_background: self.drop_target_background.deep_view(),
            element_active: self.element_active.deep_view(),
            element_background: self.element_background.deep_view(),
            element_disabled: self.element_disabled.deep_view(),
            element_hover: self.element_hover.deep_view(),
            element_selected: self.element_selected.deep_view(),
            ghost_element_active: self.ghost_element_active.deep_view(),
            ghost_element_background: self.ghost_element_background.deep_view(),
            ghost_element_disabled: self.ghost_element_disabled.deep_view(),
            ghost_element_hover: self.ghost_element_hover.deep_view(),
            ghost_element_selected: self.ghost_element_selected.deep_view(),
            text: self.text.deep_view(),
            text_accent: self.text_accent.deep_view(),
            text_disabled: self.text_disabled.deep_view(),
            text_muted: self.text_muted.deep_view(),
            text_placeholder: self.text_placeholder.deep_view(),
            icon: self.icon.deep_view(),
            icon_accent: self.icon_accent.deep_view(),
            icon_disabled: self.icon_disabled.deep_view(),
            icon_muted: self.icon_muted.deep_view(),
            icon_placeholder: self.icon_placeholder.deep_view(),
            status_bar_background: self.status_bar_background.deep_view(),
            title_bar_background: self.title_bar_background.deep_view(),
            title_bar_inactive_background: self.title_bar_inactive_background.deep_view(),
            toolbar_background: self.toolbar_background.deep_view(),
            tab_bar_background: self.tab_bar_background.deep_view(),
            tab_active_background: self.tab_active_background.deep_view(),
            tab_inactive_background: self.tab_inactive_background.deep_view(),
            search_match_background: self.search_match_background.deep_view(),
            panel_background: self.panel_background.deep_view(),
            panel_focused_border: self.panel_focused_border.deep_view(),
            panel_indent_guide: self.panel_indent_guide.deep_view(),
            panel_indent_guide_active: self.panel_indent_guide_active.deep_view(),
            panel_indent_guide_hover: self.panel_indent_guide_hover.deep_view(),
            pane_focused_border: self.pane_focused_border.deep_view(),
            pane_group_border: self.pane_group_border.deep_view(),
            scrollbar_thumb_background: self.scrollbar_thumb_background.deep_view(),
            scrollbar_thumb_border: self.scrollbar_thumb_border.deep_view(),
            scrollbar_thumb_hover_background: self.scrollbar_thumb_hover_background.deep_view(),
            scrollbar_track_background: self.scrollbar_track_background.deep_view(),
            scrollbar_track_border: self.scrollbar_track_border.deep_view(),
            editor_active_line_background: self.editor_active_line_background.deep_view(),
            editor_active_line_number: self.editor_active_line_number.deep_view(),
            editor_active_wrap_guide: self.editor_active_wrap_guide.deep_view(),
            editor_background: self.editor_background.deep_view(),
            editor_document_highlight_bracket_background: self.editor_document_highlight_bracket_background.deep_view(),
            editor_document_highlight_read_background: self.editor_document_highlight_read_background.deep_view(),
            editor_document_highlight_write_background: self.editor_document_highlight_write_background.deep_view(),
            editor_foreground: self.editor_foreground.deep_view(),
            editor_gutter_background: self.editor_gutter_background.deep_view(),
            editor_highlighted_line_background: self.editor_highlighted_line_background.deep_view(),
            editor_indent_guide: self.editor_indent_guide.deep_view(),
            editor_indent_guide_active: self.editor_indent_guide_active.deep_view(),
            editor_invisible: self.editor_invisible.deep_view(),
            editor_line_number: self.editor_line_number.deep_view(),
            editor_subheader_background: self.editor_subheader_background.deep_view(),
            editor_wrap_guide: self.editor_wrap_guide.deep_view(),
            terminal_ansi_background: self.terminal_ansi_background.deep_view(),
            terminal_ansi_black: self.terminal_ansi_black.deep_view(),
            terminal_ansi_blue: self.terminal_ansi_blue.deep_view(),
            terminal_ansi_bright_black: self.terminal_ansi_bright_black.deep_view(),
            terminal_ansi_bright_blue: self.terminal_ansi_bright_blue.deep_view(),
            terminal_ansi_bright_cyan: self.terminal_ansi_bright_cyan.deep_view(),
            terminal_ansi_bright_green: self.terminal_ansi_bright_green.deep_view(),
            terminal_ansi_bright_magenta: self.terminal_ansi_bright_magenta.deep_view(),
            terminal_ansi_bright_red: self.terminal_ansi_bright_red.deep_view(),
            terminal_ansi_bright_white: self.terminal_ansi_bright_white.deep_view(),
            terminal_ansi_bright_yellow: self.terminal_ansi_bright_yellow.deep_view(),
            terminal_ansi_cyan: self.terminal_ansi_cyan.deep_view(),
            terminal_ansi_dim_black: self.terminal_ansi_dim_black.deep_view(),
            terminal_ansi_dim_blue: self.terminal_ansi_dim_blue.deep_view(),
            terminal_ansi_dim_cyan: self.terminal_ansi_dim_cyan.deep_view(),
            terminal_ansi_dim_green: self.terminal_ansi_dim_green.deep_view(),
            terminal_ansi_dim_magenta: self.terminal_ansi_dim_magenta.deep_view(),
            terminal_ansi_dim_red: self.terminal_ansi_dim_red.deep_view(),
            terminal_ansi_dim_white: self.terminal_ansi_dim_white.deep_view(),
            terminal_ansi_dim_yellow: self.terminal_ansi_dim_yellow.deep_view(),
            terminal_ansi_green: self.terminal_ansi_green.deep_view(),
            terminal_ansi_magenta: self.terminal_ansi_magenta.deep_view(),
            terminal_ansi_red: self.terminal_ansi_red.deep_view(),
            terminal_ansi_white: self.terminal_ansi_white.deep_view(),
            terminal_ansi_yellow: self.terminal_ansi_yellow.deep_view(),
            terminal_background: self.terminal_background.deep_view(),
            terminal_bright_foreground: self.terminal_bright_foreground.deep_view(),
            terminal_dim_foreground: self.terminal_dim_foreground.deep_view(),
            terminal_foreground: self.terminal_foreground.deep_view(),
            link_text_hover: self.link_text_hover.deep_view(),
            conflict: self.conflict.deep_view(),
            conflict_background: self.conflict_background.deep_view(),
            conflict_border: self.conflict_border.deep_view(),
            created: self.created.deep_view(),
            created_background: self.created_background.deep_view(),
            created_border: self.created_border.deep_view(),
            deleted: self.deleted.deep_view(),
            deleted_background: self.deleted_background.deep_view(),
            deleted_border: self.deleted_border.deep_view(),
            error: self.error.deep_view(),
            error_background: self.error_background.deep_view(),
            error_border: self.error_border.deep_view(),
            hidden: self.hidden.deep_view(),
            hidden_background: self.hidden_background.deep_view(),
            hidden_border: self.hidden_border.deep_view(),
            hint: self.hint.deep_view(),
            hint_background: self.hint_background.deep_view(),
            hint_border: self.hint_border.deep_view(),
            ignored: self.ignored.deep_view(),
            ignored_background: self.ignored_background.deep_view(),
            ignored_border: self.ignored_border.deep_view(),
            info: self.info.deep_view(),
            info_background: self.info_background.deep_view(),
            info_border: self.info_border.deep_view(),
            modified: self.modified.deep_view(),
            modified_background: self.modified_background.deep_view(),
            modified_border: self.modified_border.deep_view(),
            predictive: self.predictive.deep_view(),
            predictive_background: self.predictive_background.deep_view(),
            predictive_border: self.predictive_border.deep_view(),
            renamed: self.renamed.deep_view(),
            renamed_background: self.renamed_background.deep_view(),
            renamed_border: self.renamed_border.deep_view(),
            success: self.success.deep_view(),
            success_background: self.success_background.deep_view(),
            success_border: self.success_border.deep_view(),
            unreachable: self.unreachable.deep_view(),
            unreachable_background: self.unreachable_background.deep_view(),
            unreachable_border: self.unreachable_border.deep_view(),
            warning: self.warning.deep_view(),
            warning_background: self.warning_background.deep_view(),
            warning_border: self.warning_border.deep_view(),
            players: players_view(self.players),
            syntax: syntax_view(self.syntax),
        }
    }
}

/// The style that sets nothing.
pub open spec fn empty_style() -> ZedThemeStyleView {
    ZedThemeStyleView {
        accents: None,
        background_appearance: None,
        background: None,
        border: None,
        border_disabled: None,
        border_focused: None,
        border_selected: None,
        border_transparent: None,
        border_variant: None,
        elevated_surface_background: None,
        surface_background: None,
        drop_target_background: None,
        element_active: None,
        element_background: None,
        element_disabled: None,
        element_hover: None,
        element_selected: None,
        ghost_element_active: None,
        ghost_element_background: None,
        ghost_element_disabled: None,
        ghost_element_hover: None,
        ghost_element_selected: None,
        text: None,
        text_accent: None,
        text_disabled: None,
        text_muted: None,
        text_placeholder: None,
        icon: None,
        icon_accent: None,
        icon_disabled: None,
        icon_muted: None,
        icon_placeholder: None,
        status_bar_background: None,
        title_bar_background: None,
        title_bar_inactive_background: None,
        toolbar_background: None,
        tab_bar_background: None,
        tab_active_background: None,
        tab_inactive_background: None,
        search_match_background: None,
        panel_background: None,
        panel_focused_border: None,
        panel_indent_guide: None,
        panel_indent_guide_active: None,
        panel_indent_guide_hover: None,
        pane_focused_border: None,
        pane_group_border: None,
        scrollbar_thumb_background: None,
        scrollbar_thumb_border: None,
        scrollbar_thumb_hover_background: None,
        scrollbar_track_background: None,
        scrollbar_track_border: None,
        editor_active_line_background: None,
        editor_active_line_number: None,
        editor_active_wrap_guide: None,
        editor_background: None,
        editor_document_highlight_bracket_background: None,
        editor_document_highlight_read_background: None,
        editor_document_highlight_write_background: None,
        editor_foreground: None,
        editor_gutter_background: None,
        editor_highlighted_line_background: None,
        editor_indent_guide: None,
        editor_indent_guide_active: None,
        editor_invisible: None,
        editor_line_number: None,
        editor_subheader_background: None,
        editor_wrap_guide: None,
        terminal_ansi_background: None,
        terminal_ansi_black: None,
        terminal_ansi_blue: None,
        terminal_ansi_bright_black: None,
        terminal_ansi_bright_blue: None,
        terminal_ansi_bright_cyan: None,
        terminal_ansi_bright_green: None,
        terminal_ansi_bright_magenta: None,
        terminal_ansi_bright_red: None,
        terminal_ansi_bright_white: None,
        terminal_ansi_bright_yellow: None,
        terminal_ansi_cyan: None,
        terminal_ansi_dim_black: None,
        terminal_ansi_dim_blue: None,
        terminal_ansi_dim_cyan: None,
        terminal_ansi_dim_green: None,
        terminal_ansi_dim_magenta: None,
        terminal_ansi_dim_red: None,
        terminal_ansi_dim_white: None,
        terminal_ansi_dim_yellow: None,
        terminal_ansi_green: None,
        terminal_ansi_magenta: None,
        terminal_ansi_red: None,
        terminal_ansi_white: None,
        terminal_ansi_yellow: None,
        terminal_background: None,
        terminal_bright_foreground: None,
        terminal_dim_foreground: None,
        terminal_foreground: None,
        link_text_hover: None,
        conflict: None,
        conflict_background: None,
        conflict_border: None,
        created: None,
        created_background: None,
        created_border: None,
        deleted: None,
        deleted_background: None,
        deleted_border: None,
        error: None,
        error_background: None,
        error_border: None,
        hidden: None,
        hidden_background: None,
        hidden_border: None,
        hint: None,
        hint_background: None,
        hint_border: None,
        ignored: None,
        ignored_background: None,
        ignored_border: None,
        info: None,
        info_background: None,
        info_border: None,
        modified: None,
        modified_background: None,
        modified_border: None,
        predictive: None,
        predictive_background: None,
        predictive_border: None,
        renamed: None,
        renamed_background: None,
        renamed_border: None,
        success: None,
        success_background: None,
        success_border: None,
        unreachable: None,
        unreachable_background: None,
        unreachable_border: None,
        warning: None,
        warning_background: None,
        warning_border: None,
        players: None,
        syntax: None,
    }
}

impl ViewClone for HighlightStyle {
    fn clone_view(&self) -> (r: Self) {
        self.clone()
    }
}

/// A copy of a list of strings.
fn copy_string_vec(v: &Vec<String>) -> (r: Vec<String>)
    ensures
        r.deep_view() == v.deep_view(),
{
    let mut r: Vec<String> = Vec::new();
    let mut i: usize = 0;
    while i < v.len()
        invariant
            i <= v@.len(),
            r@.len() == i,
            forall|j: int| 0 <= j < i ==> #[trigger] r@[j]@ == v@[j]@,
        decreases v@.len() - i,
    {
        r.push(v[i].clone());
        i += 1;
    }
    assert(r.deep_view() =~= v.deep_view());
    r
}

/// A copy of a list of player colors.
fn copy_players(v: &Vec<PlayerColor>) -> (r: Vec<PlayerColor>)
    ensures
        r@.map_values(|c: PlayerColor| c@) == v@.map_values(|c: PlayerColor| c@),
{
    let mut r: Vec<PlayerColor> = Vec::new();
    let mut i: usize = 0;
    while i < v.len()
        invariant
            i <= v@.len(),
            r@.len() == i,
            forall|j: int| 0 <= j < i ==> #[trigger] r@[j]@ == v@[j]@,
        decreases v@.len() - i,
    {
        r.push(v[i].clone());
        i += 1;
    }
    assert(r@.map_values(|c: PlayerColor| c@) =~= v@.map_values(|c: PlayerColor| c@));
    r
}

/// The entries of an optional syntax map, in order.
pub open spec fn syntax_pairs(s: Option<StrMap<HighlightStyle>>) -> Seq<(Seq<char>, HighlightStyleView)> {
    match s {
        Some(m) => m.pairs(),
        None => Seq::empty(),
    }
}

impl Clone for ZedThemeStyle {
    fn clone(&self) -> (r: Self)
        ensures
            r@ == self@,
            r.syntax is Some <==> self.syntax is Some,
            syntax_pairs(r.syntax) == syntax_pairs(self.syntax),
    {
        ZedThemeStyle {
            accents: match &self.accents {
                Some(v) => Some(copy_string_vec(v)),
                None => None,
            },
            background_appearance: self.background_appearance,
            background: clone_opt(&self.background),
            border: clone_opt(&self.border),
            border_disabled: clone_opt(&self.border_disabled),
            border_focused: clone_opt(&self.border_focused),
            border_selected: clone_opt(&self.border_selected),
            border_transparent: clone_opt(&self.border_transparent),
            border_variant: clone_opt(&self.border_variant),
            elevated_surface_background: clone_opt(&self.elevated_surface_background),
            surface_background: clone_opt(&self.surface_background),
            drop_target_background: clone_opt(&self.drop_target_background),
            element_active: clone_opt(&self.element_active),
            element_background: clone_opt(&self.element_background),
            element_disabled: clone_opt(&self.element_disabled),
            element_hover: clone_opt(&self.element_hover),
            element_selected: clone_opt(&self.element_selected),
            ghost_element_active: clone_opt(&self.ghost_element_active),
            ghost_element_background: clone_opt(&self.ghost_element_background),
            ghost_element_disabled: clone_opt(&self.ghost_element_disabled),
            ghost_element_hover: clone_opt(&self.ghost_element_hover),
            ghost_element_selected: clone_opt(&self.ghost_element_selected),
            text: clone_opt(&self.text),
            text_accent: clone_opt(&self.text_accent),
            text_disabled: clone_opt(&self.text_disabled),
            text_muted: clone_opt(&self.text_muted),
            text_placeholder: clone_opt(&self.text_placeholder),
            icon: clone_opt(&self.icon),
            icon_accent: clone_opt(&self.icon_accent),
            icon_disabled: clone_opt(&self.icon_disabled),
            icon_muted: clone_opt(&self.icon_muted),
            icon_placeholder: clone_opt(&self.icon_placeholder),
            status_bar_background: clone_opt(&self.status_bar_background),
            title_bar_background: clone_opt(&self.title_bar_background),
            title_bar_inactive_background: clone_opt(&self.title_bar_inactive_background),
            toolbar_background: clone_opt(&self.toolbar_background),
            tab_bar_background: clone_opt(&self.tab_bar_background),
            tab_active_background: clone_opt(&self.tab_active_background),
            tab_inactive_background: clone_opt(&self.tab_inactive_background),
            search_match_background: clone_opt(&self.search_match_background),
            panel_background: clone_opt(&self.panel_background),
            panel_focused_border: clone_opt(&self.panel_focused_border),
            panel_indent_guide: clone_opt(&self.panel_indent_guide),
            panel_indent_guide_active: clone_opt(&self.panel_indent_guide_active),
            panel_indent_guide_hover: clone_opt(&self.panel_indent_guide_hover),
            pane_focused_border: clone_opt(&self.pane_focused_border),
            pane_group_border: clone_opt(&self.pane_group_border),
            scrollbar_thumb_background: clone_opt(&self.scrollbar_thumb_background),
            scrollbar_thumb_border: clone_opt(&self.scrollbar_thumb_border),
            scrollbar_thumb_hover_background: clone_opt(&self.scrollbar_thumb_hover_background),
            scrollbar_track_background: clone_opt(&self.scrollbar_track_background),
            scrollbar_track_border: clone_opt(&self.scrollbar_track_border),
            editor_active_line_background: clone_opt(&self.editor_active_line_background),
            editor_active_line_number: clone_opt(&self.editor_active_line_number),
            editor_active_wrap_guide: clone_opt(&self.editor_active_wrap_guide),
            editor_background: clone_opt(&self.editor_background),
            editor_document_highlight_bracket_background: clone_opt(&self.editor_document_highlight_bracket_background),
            editor_document_highlight_read_background: clone_opt(&self.editor_document_highlight_read_background),
            editor_document_highlight_write_background: clone_opt(&self.editor_document_highlight_write_background),
            editor_foreground: clone_opt(&self.editor_foreground),
            editor_gutter_background: clone_opt(&self.editor_gutter_background),
            editor_highlighted_line_background: clone_opt(&self.editor_highlighted_line_background),
            editor_indent_guide: clone_opt(&self.editor_indent_guide),
            editor_indent_guide_active: clone_opt(&self.editor_indent_guide_active),
            editor_invisible: clone_opt(&self.editor_invisible),
            editor_line_number: clone_opt(&self.editor_line_number),
            editor_subheader_background: clone_opt(&self.editor_subheader_background),
            editor_wrap_guide: clone_opt(&self.editor_wrap_guide),
            terminal_ansi_background: clone_opt(&self.terminal_ansi_background),
            terminal_ansi_black: clone_opt(&self.terminal_ansi_black),
            terminal_ansi_blue: clone_opt(&self.terminal_ansi_blue),
            terminal_ansi_bright_black: clone_opt(&self.terminal_ansi_bright_black),
            terminal_ansi_bright_blue: clone_opt(&self.terminal_ansi_bright_blue),
            terminal_ansi_bright_cyan: clone_opt(&self.terminal_ansi_bright_cyan),
            terminal_ansi_bright_green: clone_opt(&self.terminal_ansi_bright_green),
            terminal_ansi_bright_magenta: clone_opt(&self.terminal_ansi_bright_magenta),
            terminal_ansi_bright_red: clone_opt(&self.terminal_ansi_bright_red),
            terminal_ansi_bright_white: clone_opt(&self.terminal_ansi_bright_white),
            terminal_ansi_bright_yellow: clone_opt(&self.terminal_ansi_bright_yellow),
            terminal_ansi_cyan: clone_opt(&self.terminal_ansi_cyan),
            terminal_ansi_dim_black: clone_opt(&self.terminal_ansi_dim_black),
            terminal_ansi_dim_blue: clone_opt(&self.terminal_ansi_dim_blue),
            terminal_ansi_dim_cyan: clone_opt(&self.terminal_ansi_dim_cyan),
            terminal_ansi_dim_green: clone_opt(&self.terminal_ansi_dim_green),
            terminal_ansi_dim_magenta: clone_opt(&self.terminal_ansi_dim_magenta),
            terminal_ansi_dim_red: clone_opt(&self.terminal_ansi_dim_red),
            terminal_ansi_dim_white: clone_opt(&self.terminal_ansi_dim_white),
            terminal_ansi_dim_yellow: clone_opt(&self.terminal_ansi_dim_yellow),
            terminal_ansi_green: clone_opt(&self.terminal_ansi_green),
            terminal_ansi_magenta: clone_opt(&self.terminal_ansi_magenta),
            terminal_ansi_red: clone_opt(&self.terminal_ansi_red),
            terminal_ansi_white: clone_opt(&self.terminal_ansi_white),
            terminal_ansi_yellow: clone_opt(&self.terminal_ansi_yellow),
            terminal_background: clone_opt(&self.terminal_background),
            terminal_bright_foreground: clone_opt(&self.terminal_bright_foreground),
            terminal_dim_foreground: clone_opt(&self.terminal_dim_foreground),
            terminal_foreground: clone_opt(&self.terminal_foreground),
            link_text_hover: clone_opt(&self.link_text_hover),
            conflict: clone_opt(&self.conflict),
            conflict_background: clone_opt(&self.conflict_background),
            conflict_border: clone_opt(&self.conflict_border),
            created: clone_opt(&self.created),
            created_background: clone_opt(&self.created_background),
            created_border: clone_opt(&self.created_border),
            deleted: clone_opt(&self.deleted),
            deleted_background: clone_opt(&self.deleted_background),
            deleted_border: clone_opt(&self.deleted_border),
            error: clone_opt(&self.error),
            error_background: clone_opt(&self.error_background),
            error_border: clone_opt(&self.error_border),
            hidden: clone_opt(&self.hidden),
            hidden_background: clone_opt(&self.hidden_background),
            hidden_border: clone_opt(&self.hidden_border),
            hint: clone_opt(&self.hint),
            hint_background: clone_opt(&self.hint_background),
            hint_border: clone_opt(&self.hint_border),
            ignored: clone_opt(&self.ignored),
            ignored_background: clone_opt(&self.ignored_background),
            ignored_border: clone_opt(&self.ignored_border),
            info: clone_opt(&self.info),
            info_background: clone_opt(&self.info_background),
            info_border: clone_opt(&self.info_border),
            modified: clone_opt(&self.modified),
            modified_background: clone_opt(&self.modified_background),
            modified_border: clone_opt(&self.modified_border),
            predictive: clone_opt(&self.predictive),
            predictive_background: clone_opt(&self.predictive_background),
            predictive_border: clone_opt(&self.predictive_border),
            renamed: clone_opt(&self.renamed),
            renamed_background: clone_opt(&self.renamed_background),
            renamed_border: clone_opt(&self.renamed_border),
            success: clone_opt(&self.success),
            success_background: clone_opt(&self.success_background),
            success_border: clone_opt(&self.success_border),
            unreachable: clone_opt(&self.unreachable),
            unreachable_background: clone_opt(&self.unreachable_background),
            unreachable_border: clone_opt(&self.unreachable_border),
            warning: clone_opt(&self.warning),
            warning_background: clone_opt(&self.warning_background),
            warning_border: clone_opt(&self.warning_border),
            players: match &self.players {
                Some(v) => Some(copy_players(v)),
                None => None,
            },
            syntax: match &self.syntax {
                Some(m) => Some(m.copy()),
                None => None,
            },
        }
    }
}

impl Clone for ZedTheme {
    fn clone(&self) -> (r: Self)
        ensures
            r.name@ == self.name@,
            r.appearance == self.appearance,
            r.style@ == self.style@,
            r.style.syntax is Some <==> self.style.syntax is Some,
            syntax_pairs(r.style.syntax) == syntax_pairs(self.style.syntax),
    {
        ZedTheme { name: self.name.clone(), appearance: self.appearance, style: self.style.clone() }
    }
}

impl Default for ZedThemeStyle {
    fn default() -> (r: Self)
        ensures
            r@ == empty_style(),
    {
        ZedThemeStyle {
            accents: None,
            background_appearance: None,
            background: None,
            border: None,
            border_disabled: None,
            border_focused: None,
            border_selected: None,
            border_transparent: None,
            border_variant: None,
            elevated_surface_background: None,
            surface_background: None,
            drop_target_background: None,
            element_active: None,
            element_background: None,
            element_disabled: None,
            element_hover: None,
            element_selected: None,
            ghost_element_active: None,
            ghost_element_background: None,
            ghost_element_disabled: None,
            ghost_element_hover: None,
            ghost_element_selected: None,
            text: None,
            text_accent: None,
            text_disabled: None,
            text_muted: None,
            text_placeholder: None,
            icon: None,
            icon_accent: None,
            icon_disabled: None,
            icon_muted: None,
            icon_placeholder: None,
            status_bar_background: None,
            title_bar_background: None,
            title_bar_inactive_background: None,
            toolbar_background: None,
            tab_bar_background: None,
            tab_active_background: None,
            tab_inactive_background: None,
            search_match_background: None,
            panel_background: None,
            panel_focused_border: None,
            panel_indent_guide: None,
            panel_indent_guide_active: None,
            panel_indent_guide_hover: None,
            pane_focused_border: None,
            pane_group_border: None,
            scrollbar_thumb_background: None,
            scrollbar_thumb_border: None,
            scrollbar_thumb_hover_background: None,
            scrollbar_track_background: None,
            scrollbar_track_border: None,
            editor_active_line_background: None,
            editor_active_line_number: None,
            editor_active_wrap_guide: None,
            editor_background: None,
            editor_document_highlight_bracket_background: None,
            editor_document_highlight_read_background: None,
            editor_document_highlight_write_background: None,
            editor_foreground: None,
            editor_gutter_background: None,
            editor_highlighted_line_background: None,
            editor_indent_guide: None,
            editor_indent_guide_active: None,
            editor_invisible: None,
            editor_line_number: None,
            editor_subheader_background: None,
            editor_wrap_guide: None,
            terminal_ansi_background: None,
            terminal_ansi_black: None,
            terminal_ansi_blue: None,
            terminal_ansi_bright_black: None,
            terminal_ansi_bright_blue: None,
            terminal_ansi_bright_cyan: None,
            terminal_ansi_bright_green: None,
            terminal_ansi_bright_magenta: None,
            terminal_ansi_bright_red: None,
            terminal_ansi_bright_white: None,
            terminal_ansi_bright_yellow: None,
            terminal_ansi_cyan: None,
            terminal_ansi_dim_black: None,
            terminal_ansi_dim_blue: None,
            terminal_ansi_dim_cyan: None,
            terminal_ansi_dim_green: None,
            terminal_ansi_dim_magenta: None,
            terminal_ansi_dim_red: None,
            terminal_ansi_dim_white: None,
            terminal_ansi_dim_yellow: None,
            terminal_ansi_green: None,
            terminal_ansi_magenta: None,
            terminal_ansi_red: None,
            terminal_ansi_white: None,
            terminal_ansi_yellow: None,
            terminal_background: None,
            terminal_bright_foreground: None,
            terminal_dim_foreground: None,
            terminal_foreground: None,
            link_text_hover: None,
            conflict: None,
            conflict_background: None,
            conflict_border: None,
            created: None,
            created_background: None,
            created_border: None,
            deleted: None,
            deleted_background: None,
            deleted_border: None,
            error: None,
            error_background: None,
            error_border: None,
            hidden: None,
            hidden_background: None,
            hidden_border: None,
            hint: None,
            hint_background: None,
            hint_border: None,
            ignored: None,
            ignored_background: None,
            ignored_border: None,
            info: None,
            info_background: None,
            info_border: None,
            modified: None,
            modified_background: None,
            modified_border: None,
            predictive: None,
            predictive_background: None,
            predictive_border: None,
            renamed: None,
            renamed_background: None,
            renamed_border: None,
            success: None,
            success_background: None,
            success_border: None,
            unreachable: None,
            unreachable_background: None,
            unreachable_border: None,
            warning: None,
            warning_background: None,
            warning_border: None,
            players: None,
            syntax: None,
        }
    }
}

} // verus!
