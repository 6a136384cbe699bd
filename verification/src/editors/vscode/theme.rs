//! VSCode color theme data structures.

use vstd::prelude::*;

use crate::slugs::{slug_of, slugify};
use crate::strmap::StrMap;
use crate::text::{owned, str_eq};

verus! {

/// A complete VSCode color theme.
#[derive(Debug)]
pub struct VsCodeTheme {
    pub name: String,
    pub theme_type: Option<String>,
    pub colors: Option<StrMap<String>>,
    pub token_colors: Option<TokenColors>,
    pub semantic_highlighting: Option<bool>,
    pub semantic_token_colors: Option<StrMap<TokenColorSettings>>,
    pub filename: String,
}

/// Token colors are either a path to a tmTheme file or a list of rules.
#[derive(Debug)]
pub enum TokenColors {
    /// Path to a tmTheme file (relative to the current file)
    Path(String),
    /// Array of token color rules
    Rules(Vec<TokenColorRule>),
}

/// A single token color rule.
#[derive(Debug)]
pub struct TokenColorRule {
    pub name: Option<String>,
    pub scope: Option<TokenScope>,
    pub settings: TokenColorSettings,
}

/// A token scope is one string or a list of strings.
#[derive(Debug)]
pub enum TokenScope {
    Single(String),
    Multiple(Vec<String>),
}

/// Settings for token colors.
#[derive(Debug)]
pub struct TokenColorSettings {
    pub foreground: Option<String>,
    pub background: Option<String>,
    pub font_style: Option<String>,
}

/// The view of token color settings.
pub struct TokenColorSettingsView {
    pub foreground: Option<Seq<char>>,
    pub background: Option<Seq<char>>,
    pub font_style: Option<Seq<char>>,
}

/// The view of a token scope.
pub enum TokenScopeView {
    Single(Seq<char>),
    Multiple(Seq<Seq<char>>),
}

/// The view of a token color rule.
pub struct TokenColorRuleView {
    pub name: Option<Seq<char>>,
    pub scope: Option<TokenScopeView>,
    pub settings: TokenColorSettingsView,
}

/// The view of token colors.
pub enum TokenColorsView {
    Path(Seq<char>),
    Rules(Seq<TokenColorRuleView>),
}

/// The view of a VSCode theme.
pub struct VsCodeThemeView {
    pub name: Seq<char>,
    pub theme_type: Option<Seq<char>>,
    pub colors: Option<Map<Seq<char>, Seq<char>>>,
    pub token_colors: Option<TokenColorsView>,
    pub semantic_highlighting: Option<bool>,
    pub semantic_token_colors: Option<Map<Seq<char>, TokenColorSettingsView>>,
    pub filename: Seq<char>,
}

impl View for TokenColorSettings {
    type V = TokenColorSettingsView;

    open spec fn view(&self) -> TokenColorSettingsView {
        TokenColorSettingsView {
            foreground: self.foreground.deep_view(),
            background: self.background.deep_view(),
            font_style: self.font_style.deep_view(),
        }
    }
}

impl View for TokenScope {
    type V = TokenScopeView;

    open spec fn view(&self) -> TokenScopeView {
        match self {
            TokenScope::Single(s) => TokenScopeView::Single(s@),
            TokenScope::Multiple(v) => TokenScopeView::Multiple(v.deep_view()),
        }
    }
}

/// The view of an optional scope.
pub open spec fn scope_view(s: Option<TokenScope>) -> Option<TokenScopeView> {
    match s {
        Some(x) => Some(x@),
        None => None,
    }
}

impl View for TokenColorRule {
    type V = TokenColorRuleView;

    open spec fn view(&self) -> TokenColorRuleView {
        TokenColorRuleView {
            name: self.name.deep_view(),
            scope: scope_view(self.scope),
            settings: self.settings@,
        }
    }
}

/// The views of a list of rules.
pub open spec fn rules_view(v: Seq<TokenColorRule>) -> Seq<TokenColorRuleView> {
    v.map_values(|r: TokenColorRule| r@)
}

impl View for TokenColors {
    type V = TokenColorsView;

    open spec fn view(&self) -> TokenColorsView {
        match self {
            TokenColors::Path(p) => TokenColorsView::Path(p@),
            TokenColors::Rules(r) => TokenColorsView::Rules(rules_view(r@)),
        }
    }
}

/// The view of optional token colors.
pub open spec fn token_colors_view(t: Option<TokenColors>) -> Option<TokenColorsView> {
    match t {
        Some(x) => Some(x@),
        None => None,
    }
}

/// The view of an optional map of colors.
pub open spec fn colors_view(c: Option<StrMap<String>>) -> Option<Map<Seq<char>, Seq<char>>> {
    match c {
        Some(m) => Some(m@),
        None => None,
    }
}

/// The view of an optional map of semantic token colors.
pub open spec fn semantic_view(c: Option<StrMap<TokenColorSettings>>) -> Option<
    Map<Seq<char>, TokenColorSettingsView>,
> {
    match c {
        Some(m) => Some(m@),
        None => None,
    }
}

impl View for VsCodeTheme {
    type V = VsCodeThemeView;

    open spec fn view(&self) -> VsCodeThemeView {
        VsCodeThemeView {
            name: self.name@,
            theme_type: self.theme_type.deep_view(),
            colors: colors_view(self.colors),
            token_colors: token_colors_view(self.token_colors),
            semantic_highlighting: self.semantic_highlighting,
            semantic_token_colors: semantic_view(self.semantic_token_colors),
            filename: self.filename@,
        }
    }
}

/// The color stored under `key`, if the theme has colors and that key.
pub open spec fn theme_color(t: VsCodeThemeView, key: Seq<char>) -> Option<Seq<char>> {
    match t.colors {
        Some(c) => if c.contains_key(key) {
            Some(c[key])
        } else {
            None
        },
        None => None,
    }
}

/// A copy of an optional string.
pub fn copy_opt(o: &Option<String>) -> (r: Option<String>)
    ensures
        r.deep_view() == o.deep_view(),
{
    match o {
        Some(s) => Some(s.clone()),
        None => None,
    }
}

/// A copy of a list of strings.
pub fn copy_strings(v: &Vec<String>) -> (r: Vec<String>)
    ensures
        r.deep_view() == v.deep_view(),
{
    let mut r: Vec<String> = Vec::new();
    let mut i: usize = 0;
    while i < v.len()
        invariant
            i <= v@.len(),
            r@.len() == i,
            forall|j: int| 0 <= j < i ==> #[trigger] r@[j]@ == v@[j]@,
        decreases v@.len() - i,
    {
        r.push(v[i].clone());
        i += 1;
    }
    assert(r.deep_view() =~= v.deep_view());
    r
}

impl Clone for TokenColorSettings {
    fn clone(&self) -> (r: Self)
        ensures
            r@ == self@,
    {
        TokenColorSettings {
            foreground: copy_opt(&self.foreground),
            background: copy_opt(&self.background),
            font_style: copy_opt(&self.font_style),
        }
    }
}

impl Clone for TokenScope {
    fn clone(&self) -> (r: Self)
        ensures
            r@ == self@,
    {
        match self {
            TokenScope::Single(s) => TokenScope::Single(s.clone()),
            TokenScope::Multiple(v) => TokenScope::Multiple(copy_strings(v)),
        }
    }
}

impl Clone for TokenColorRule {
    fn clone(&self) -> (r: Self)
        ensures
            r@ == self@,
    {
        let scope = match &self.scope {
            Some(s) => Some(s.clone()),
            None => None,
        };
        TokenColorRule { name: copy_opt(&self.name), scope, settings: self.settings.clone() }
    }
}

impl VsCodeTheme {
    /// Create a new VSCode theme with the given name; its file name is the
    /// slug of the name with a `.json` extension.
    pub fn new(name: String) -> (r: Self)
        ensures
            r@ == (VsCodeThemeView {
                name: name@,
                theme_type: None,
                colors: None,
                token_colors: None,
                semantic_highlighting: None,
                semantic_token_colors: None,
                filename: slug_of(name@) + ".json"@,
            }),
    {
        let mut filename = slugify(name.as_str());
        filename.append(".json");
        VsCodeTheme {
            name,
            theme_type: None,
            colors: None,
            token_colors: None,
            semantic_highlighting: None,
            semantic_token_colors: None,
            filename,
        }
    }

    /// The theme type (light or dark).
    pub fn get_theme_type(&self) -> (r: Option<&str>)
        ensures
            r.deep_view() == self.theme_type.deep_view(),
    {
        match &self.theme_type {
            Some(t) => Some(t.as_str()),
            None => None,
        }
    }

    /// Is this a dark theme (type `"dark"`)?
    pub fn is_dark_theme(&self) -> (r: bool)
        ensures
            r == (self.theme_type.deep_view() == Some("dark"@)),
    {
        match &self.theme_type {
            Some(t) => str_eq(t.as_str(), "dark"),
            None => false,
        }
    }

    /// Is this a light theme (type `"light"`)?
    pub fn is_light_theme(&self) -> (r: bool)
        ensures
            r == (self.theme_type.deep_view() == Some("light"@)),
    {
        match &self.theme_type {
            Some(t) => str_eq(t.as_str(), "light"),
            None => false,
        }
    }

    /// The color stored under `key`.
    pub fn get_color(&self, key: &str) -> (r: Option<&str>)
        ensures
            r.deep_view() == theme_color(self@, key@),
    {
        match &self.colors {
            Some(colors) => match colors.get(key) {
                Some(c) => Some(c.as_str()),
                None => None,
            },
            None => None,
        }
    }

    /// Set a color, creating the colors map if there is none yet.
    pub fn set_color(&mut self, key: String, value: String)
        ensures
            final(self)@ == (VsCodeThemeView {
                colors: Some(
                    match old(self)@.colors {
                        Some(c) => c,
                        None => Map::empty(),
                    }.insert(key@, value@),
                ),
                ..old(self)@
            }),
    {
        let mut colors = match self.colors.take() {
            Some(c) => c,
            None => StrMap::new(),
        };
        colors.insert(key, value);
        self.colors = Some(colors);
    }

    /// The token color rules, if the theme uses the rules format.
    pub fn get_token_rules(&self) -> (r: Option<&Vec<TokenColorRule>>)
        ensures
            match self.token_colors {
                Some(TokenColors::Rules(rules)) => r == Some(&rules),
                _ => r is None,
            },
    {
        match &self.token_colors {
            Some(TokenColors::Rules(rules)) => Some(rules),
            _ => None,
        }
    }

    /// Replace the token colors by the given rules.
    pub fn set_token_rules(&mut self, rules: Vec<TokenColorRule>)
        ensures
            final(self)@ == (VsCodeThemeView {
                token_colors: Some(TokenColorsView::Rules(rules_view(rules@))),
                ..old(self)@
            }),
    {
        self.token_colors = Some(TokenColors::Rules(rules));
    }

    /// Add a token color rule at the end of the rules; a theme without rules
    /// (none, or a tmTheme path) gets a list of this one rule.
    pub fn add_token_rule(&mut self, rule: TokenColorRule)
        ensures
            final(self)@ == (VsCodeThemeView {
                token_colors: Some(
                    TokenColorsView::Rules(
                        match old(self)@.token_colors {
                            Some(TokenColorsView::Rules(rules)) => rules.push(rule@),
                            _ => seq![rule@],
                        },
                    ),
                ),
                ..old(self)@
            }),
    {
        match self.token_colors.take() {
            Some(TokenColors::Rules(mut rules)) => {
                rules.push(rule);
                proof {
                    assert(rules_view(rules@) =~= rules_view(old(self).token_colors->0->Rules_0@).push(rule@));
                }
                self.token_colors = Some(TokenColors::Rules(rules));
            },
            _ => {
                let rules = vec![rule];
                proof {
                    assert(rules_view(rules@) =~= seq![rule@]);
                }
                self.token_colors = Some(TokenColors::Rules(rules));
            },
        }
    }
}

impl TokenColorRule {
    /// A rule for a scope, without a name.
    pub fn new(scope: TokenScope, settings: TokenColorSettings) -> (r: Self)
        ensures
            r@ == (TokenColorRuleView { name: None, scope: Some(scope@), settings: settings@ }),
    {
        TokenColorRule { name: None, scope: Some(scope), settings }
    }

    /// A rule for a scope, with a name.
    pub fn with_name(name: String, scope: TokenScope, settings: TokenColorSettings) -> (r: Self)
        ensures
            r@ == (TokenColorRuleView { name: Some(name@), scope: Some(scope@), settings: settings@ }),
    {
        TokenColorRule { name: Some(name), scope: Some(scope), settings }
    }

    /// A rule for a single scope.
    pub fn single_scope(scope: String, settings: TokenColorSettings) -> (r: Self)
        ensures
            r@ == (TokenColorRuleView {
                name: None,
                scope: Some(TokenScopeView::Single(scope@)),
                settings: settings@,
            }),
    {
        Self::new(TokenScope::Single(scope), settings)
    }

    /// A rule for several scopes.
    pub fn multiple_scopes(scopes: Vec<String>, settings: TokenColorSettings) -> (r: Self)
        ensures
            r@ == (TokenColorRuleView {
                name: None,
                scope: Some(TokenScopeView::Multiple(scopes.deep_view())),
                settings: settings@,
            }),
    {
        Self::new(TokenScope::Multiple(scopes), settings)
    }
}

impl TokenColorSettings {
    /// Settings with just a foreground color.
    pub fn foreground(color: String) -> (r: Self)
        ensures
            r@ == (TokenColorSettingsView { foreground: Some(color@), background: None, font_style: None }),
    {
        TokenColorSettings { foreground: Some(color), background: None, font_style: None }
    }

    /// Settings with a foreground color and a font style.
    pub fn foreground_with_style(color: String, font_style: String) -> (r: Self)
        ensures
            r@ == (TokenColorSettingsView {
                foreground: Some(color@),
                background: None,
                font_style: Some(font_style@),
            }),
    {
        TokenColorSettings { foreground: Some(color), background: None, font_style: Some(font_style) }
    }

    /// Settings with all three properties.
    pub fn new(foreground: Option<String>, background: Option<String>, font_style: Option<String>) -> (r:
        Self)
        ensures
            r@ == (TokenColorSettingsView {
                foreground: foreground.deep_view(),
                background: background.deep_view(),
                font_style: font_style.deep_view(),
            }),
    {
        TokenColorSettings { foreground, background, font_style }
    }
}

} // verus!
