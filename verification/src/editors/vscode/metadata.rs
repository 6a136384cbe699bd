//! The contents of a VSCode extension's `package.json`, and their
//! accessors.

use vstd::prelude::*;

verus! {

/// The manifest (`package.json`) of a VSCode extension.
#[derive(Debug)]
pub struct VsCodePackageJson {
    pub name: String,
    pub display_name: String,
    pub description: String,
    pub publisher: String,
    pub contributes: Contributions,
    pub repository: Repository,
}

/// Where the extension's source lives.
#[derive(Debug)]
pub struct Repository {
    pub url: String,
}

/// What the extension contributes to the editor.
#[derive(Debug)]
pub struct Contributions {
    pub icon_themes: Vec<IconThemePointer>,
    pub themes: Vec<ThemePointer>,
}

/// A color theme of the extension.
#[derive(Debug)]
pub struct ThemePointer {
    /// The human-readable name for this theme variation.
    pub label: String,
    /// regular or dark flavored
    pub ui_theme: String,
    /// The relative path to the file where the theme data is. Eg., ./themes/label.json
    pub path: String,
}

/// An icon theme of the extension.
#[derive(Debug)]
pub struct IconThemePointer {
    /// The slug name for this icon theme.
    pub id: String,
    /// The human-readable label for this icon theme.
    pub label: String,
    /// The relative path to the file where the icon theme json file is.
    pub path: String,
}

/// The view of a theme pointer: label, UI theme and path.
pub struct ThemePointerView {
    pub label: Seq<char>,
    pub ui_theme: Seq<char>,
    pub path: Seq<char>,
}

impl View for ThemePointer {
    type V = ThemePointerView;

    open spec fn view(&self) -> ThemePointerView {
        ThemePointerView { label: self.label@, ui_theme: self.ui_theme@, path: self.path@ }
    }
}

/// The view of an icon theme pointer: id, label and path.
pub struct IconThemePointerView {
    pub id: Seq<char>,
    pub label: Seq<char>,
    pub path: Seq<char>,
}

impl View for IconThemePointer {
    type V = IconThemePointerView;

    open spec fn view(&self) -> IconThemePointerView {
        IconThemePointerView { id: self.id@, label: self.label@, path: self.path@ }
    }
}

impl VsCodePackageJson {
    /// The extension's name.
    pub fn name(&self) -> (r: &str)
        ensures
            r@ == self.name@,
    {
        self.name.as_str()
    }

    /// The extension's display name.
    pub fn display_name(&self) -> (r: &str)
        ensures
            r@ == self.display_name@,
    {
        self.display_name.as_str()
    }

    /// The extension's description.
    pub fn description(&self) -> (r: &str)
        ensures
            r@ == self.description@,
    {
        self.description.as_str()
    }

    /// The extension's publisher.
    pub fn publisher(&self) -> (r: &str)
        ensures
            r@ == self.publisher@,
    {
        self.publisher.as_str()
    }

    /// The URL of the extension's repository.
    pub fn repository(&self) -> (r: &str)
        ensures
            r@ == self.repository.url@,
    {
        self.repository.url.as_str()
    }

    /// The color themes the extension contributes.
    pub fn themes(&self) -> (r: &[ThemePointer])
        ensures
            r@ == self.contributes.themes@,
    {
        self.contributes.themes.as_slice()
    }

    /// The icon themes the extension contributes.
    pub fn icon_themes(&self) -> (r: &[IconThemePointer])
        ensures
            r@ == self.contributes.icon_themes@,
    {
        self.contributes.icon_themes.as_slice()
    }
}

} // verus!
