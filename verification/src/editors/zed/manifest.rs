//! The metadata for Zed themes is stored in the extension's
//! manifest, extension.toml. We read this file to get useful
//! information about the extension's name and author to populate
//! the VSCode equivalent.

use vstd::prelude::*;

use crate::editors::vscode::theme::{copy_opt, copy_strings};
use crate::strmap::{StrMap, ViewClone};
use crate::text::owned;

verus! {

/// `serde_json::Value`, carried through as it is.
#[verifier::external_type_specification]
#[verifier::external_body]
pub struct ExJsonValue(serde_json::Value);

/// `<serde_json::Value as Clone>::clone`: a copy of a JSON value (the
/// derived clone copies every variant and field), equal to it.
#[verifier::external_body]
fn copy_json(v: &serde_json::Value) -> (r: serde_json::Value)
    ensures
        r == *v,
{
    v.clone()
}

/// `serde_json::Value::Object(serde_json::Map::new())`: an empty JSON
/// object. Nothing is stated of the value (the library only carries it).
#[verifier::external_body]
fn empty_json_object() -> (r: serde_json::Value) {
    serde_json::Value::Object(serde_json::Map::new())
}

/// The manifest (`extension.toml`) of a Zed extension.
#[derive(Debug)]
pub struct ZedManifest {
    pub id: String,
    pub name: String,
    pub version: String,
    pub schema_version: usize,
    pub description: String,
    pub repository: String,
    pub authors: Vec<String>,
    pub themes: Vec<String>,
    pub icon_themes: Vec<String>,
    pub languages: Vec<String>,
    pub capabilities: Vec<String>,
    pub lib: Library,
    pub grammars: StrMap<Grammar>,
    pub language_servers: serde_json::Value,
    pub context_servers: serde_json::Value,
    pub slash_commands: serde_json::Value,
    pub indexed_docs_providers: serde_json::Value,
    pub snippets: Option<serde_json::Value>,
}

/// The library of an extension, if it has code.
#[derive(Debug)]
pub struct Library {
    pub kind: Option<String>,
    pub version: Option<String>,
}

/// A grammar of an extension.
#[derive(Debug)]
pub struct Grammar {
    pub repository: String,
    pub rev: String,
    pub path: Option<String>,
}

/// The view of a grammar.
pub struct GrammarView {
    pub repository: Seq<char>,
    pub rev: Seq<char>,
    pub path: Option<Seq<char>>,
}

impl View for Grammar {
    type V = GrammarView;

    open spec fn view(&self) -> GrammarView {
        GrammarView { repository: self.repository@, rev: self.rev@, path: self.path.deep_view() }
    }
}

/// A manifest holding the given identity and themes, with schema version
/// 1 and nothing else (no languages, capabilities, library, grammars or
/// servers).
pub open spec fn plain_manifest(
    m: ZedManifest,
    id: Seq<char>,
    name: Seq<char>,
    version: Seq<char>,
    description: Seq<char>,
    repository: Seq<char>,
    authors: Seq<Seq<char>>,
    themes: Seq<Seq<char>>,
    icon_themes: Seq<Seq<char>>,
) -> bool {
    &&& m.id@ == id
    &&& m.name@ == name
    &&& m.version@ == version
    &&& m.schema_version == 1
    &&& m.description@ == description
    &&& m.repository@ == repository
    &&& m.authors.deep_view() == authors
    &&& m.themes.deep_view() == themes
    &&& m.icon_themes.deep_view() == icon_themes
    &&& m.languages@.len() == 0
    &&& m.capabilities@.len() == 0
    &&& m.lib.kind is None
    &&& m.lib.version is None
    &&& m.grammars@ == Map::<Seq<char>, GrammarView>::empty()
    &&& m.snippets is None
}

impl ZedManifest {
    /// A manifest with the given identity and themes and the defaults for
    /// everything else: schema version 1, no languages, capabilities,
    /// library, grammars or snippets, and empty server tables.
    pub fn plain(
        id: String,
        name: String,
        version: String,
        description: String,
        repository: String,
        authors: Vec<String>,
        themes: Vec<String>,
        icon_themes: Vec<String>,
    ) -> (r: Self)
        ensures
            plain_manifest(
                r,
                id@,
                name@,
                version@,
                description@,
                repository@,
                authors.deep_view(),
                themes.deep_view(),
                icon_themes.deep_view(),
            ),
    {
        ZedManifest {
            id,
            name,
            version,
            schema_version: 1,
            description,
            repository,
            authors,
            themes,
            icon_themes,
            languages: Vec::new(),
            capabilities: Vec::new(),
            lib: Library { kind: None, version: None },
            grammars: StrMap::new(),
            language_servers: empty_json_object(),
            context_servers: empty_json_object(),
            slash_commands: empty_json_object(),
            indexed_docs_providers: empty_json_object(),
            snippets: None,
        }
    }

    /// The extension's id.
    pub fn id(&self) -> (r: &str)
        ensures
            r@ == self.id@,
    {
        self.id.as_str()
    }

    /// The extension's name.
    pub fn name(&self) -> (r: &str)
        ensures
            r@ == self.name@,
    {
        self.name.as_str()
    }

    /// The extension's description.
    pub fn description(&self) -> (r: &str)
        ensures
            r@ == self.description@,
    {
        self.description.as_str()
    }

    /// The URL of the extension's repository.
    pub fn repository(&self) -> (r: &str)
        ensures
            r@ == self.repository@,
    {
        self.repository.as_str()
    }

    /// The extension's authors.
    pub fn authors(&self) -> (r: &[String])
        ensures
            r@ == self.authors@,
    {
        self.authors.as_slice()
    }

    /// The paths of the extension's theme families.
    pub fn themes(&self) -> (r: &[String])
        ensures
            r@ == self.themes@,
    {
        self.themes.as_slice()
    }

    /// The paths of the extension's icon theme families.
    pub fn icon_themes(&self) -> (r: &[String])
        ensures
            r@ == self.icon_themes@,
    {
        self.icon_themes.as_slice()
    }
}

impl ViewClone for Grammar {
    fn clone_view(&self) -> (r: Self) {
        Grammar { repository: self.repository.clone(), rev: self.rev.clone(), path: copy_opt(&self.path) }
    }
}

impl Clone for Library {
    fn clone(&self) -> (r: Self)
        ensures
            r.kind.deep_view() == self.kind.deep_view(),
            r.version.deep_view() == self.version.deep_view(),
    {
        Library { kind: copy_opt(&self.kind), version: copy_opt(&self.version) }
    }
}

impl Clone for ZedManifest {
    /// A copy of the manifest, field by field.
    fn clone(&self) -> (r: Self)
        ensures
            r.id@ == self.id@,
            r.name@ == self.name@,
            r.version@ == self.version@,
            r.schema_version == self.schema_version,
            r.description@ == self.description@,
            r.repository@ == self.repository@,
            r.authors.deep_view() == self.authors.deep_view(),
            r.themes.deep_view() == self.themes.deep_view(),
            r.icon_themes.deep_view() == self.icon_themes.deep_view(),
            r.languages.deep_view() == self.languages.deep_view(),
            r.capabilities.deep_view() == self.capabilities.deep_view(),
            r.lib.kind.deep_view() == self.lib.kind.deep_view(),
            r.lib.version.deep_view() == self.lib.version.deep_view(),
            r.grammars@ == self.grammars@,
            r.snippets == self.snippets,
            r.language_servers == self.language_servers,
            r.context_servers == self.context_servers,
            r.slash_commands == self.slash_commands,
            r.indexed_docs_providers == self.indexed_docs_providers,
    {
        ZedManifest {
            id: self.id.clone(),
            name: self.name.clone(),
            version: self.version.clone(),
            schema_version: self.schema_version,
            description: self.description.clone(),
            repository: self.repository.clone(),
            authors: copy_strings(&self.authors),
            themes: copy_strings(&self.themes),
            icon_themes: copy_strings(&self.icon_themes),
            languages: copy_strings(&self.languages),
            capabilities: copy_strings(&self.capabilities),
            lib: self.lib.clone(),
            grammars: self.grammars.copy(),
            language_servers: copy_json(&self.language_servers),
            context_servers: copy_json(&self.context_servers),
            slash_commands: copy_json(&self.slash_commands),
            indexed_docs_providers: copy_json(&self.indexed_docs_providers),
            snippets: match &self.snippets {
                Some(v) => Some(copy_json(v)),
                None => None,
            },
        }
    }
}

impl Default for ZedManifest {
    fn default() -> (r: Self)
        ensures
            plain_manifest(r, Seq::empty(), Seq::empty(), Seq::empty(), Seq::empty(), Seq::empty(), Seq::empty(), Seq::empty(), Seq::empty()),
    {
        let authors: Vec<String> = Vec::new();
        let themes: Vec<String> = Vec::new();
        let icon_themes: Vec<String> = Vec::new();
        assert(authors.deep_view() =~= Seq::<Seq<char>>::empty());
        assert(themes.deep_view() =~= Seq::<Seq<char>>::empty());
        assert(icon_themes.deep_view() =~= Seq::<Seq<char>>::empty());
        let r = ZedManifest::plain(
            String::new(),
            String::new(),
            String::new(),
            String::new(),
            String::new(),
            authors,
            themes,
            icon_themes,
        );
        r
    }
}

} // verus!
