//! How the two scope tables agree: the TextMate scope a Zed syntax key is
//! written as first is read back as that key.

use vstd::prelude::*;

use super::code_to_zed::textmate_scope_key;
use super::zed_to_code::zed_key_scopes;
use crate::text::{contains, has_char, occurs_at};

verus! {

/// A string that holds `p` holds each character of `p`.
proof fn lemma_contains_has_char(s: Seq<char>, p: Seq<char>, j: int)
    requires
        contains(s, p),
        0 <= j < p.len(),
    ensures
        has_char(s, p[j]),
{
    let i = choose|i: int| #[trigger] occurs_at(s, p, i);
    assert(s.subrange(i, i + p.len())[j] == s[i + j]);
}

/// A string that holds `p` holds each pair of neighbouring characters of
/// `p`, side by side.
proof fn lemma_contains_pair(s: Seq<char>, p: Seq<char>, j: int)
    requires
        contains(s, p),
        0 <= j < p.len() - 1,
    ensures
        exists|i: int| 0 <= i < s.len() - 1 && #[trigger] s[i] == p[j] && s[i + 1] == p[j + 1],
{
    let i = choose|i: int| #[trigger] occurs_at(s, p, i);
    assert(s.subrange(i, i + p.len())[j] == s[i + j]);
    assert(s.subrange(i, i + p.len())[j + 1] == s[i + j + 1]);
}

/// The scope `punctuation.definition.bracket` is in no exact entry of the
/// table, and is read as `punctuation.bracket` by the word `bracket`.
#[verifier::spinoff_prover]
#[verifier::rlimit(100)]
proof fn lemma_bracket_scope()
    ensures
        textmate_scope_key("punctuation.definition.bracket"@) == Some("punctuation.bracket"@),
{
    reveal_strlit("comment");
    reveal_strlit("comment.line");
    reveal_strlit("comment.block");
    reveal_strlit("comment.block.documentation");
    reveal_strlit("comment.doc");
    reveal_strlit("keyword");
    reveal_strlit("keyword.control");
    reveal_strlit("keyword.control.flow");
    reveal_strlit("keyword.operator");
    reveal_strlit("operator");
    reveal_strlit("storage.type");
    reveal_strlit("storage.modifier");
    reveal_strlit("string");
    reveal_strlit("string.quoted");
    reveal_strlit("string.quoted.single");
    reveal_strlit("string.quoted.double");
    reveal_strlit("string.regexp");
    reveal_strlit("string.regex");
    reveal_strlit("string.unquoted");
    reveal_strlit("string.interpolated");
    reveal_strlit("constant.numeric");
    reveal_strlit("constant.numeric.integer");
    reveal_strlit("constant.numeric.float");
    reveal_strlit("number");
    reveal_strlit("constant.character");
    reveal_strlit("constant.character.escape");
    reveal_strlit("constant");
    reveal_strlit("constant.other");
    reveal_strlit("constant.language");
    reveal_strlit("boolean");
    reveal_strlit("constant.language.boolean");
    reveal_strlit("constant.language.null");
    reveal_strlit("entity.name.function");
    reveal_strlit("entity.name.function.member");
    reveal_strlit("function");
    reveal_strlit("entity.name.function.constructor");
    reveal_strlit("constructor");
    reveal_strlit("support.function");
    reveal_strlit("meta.function-call");
    reveal_strlit("entity.name.type");
    reveal_strlit("entity.name.class");
    reveal_strlit("type");
    reveal_strlit("entity.name.type.class");
    reveal_strlit("entity.name.enum");
    reveal_strlit("enum");
    reveal_strlit("entity.name.interface");
    reveal_strlit("entity.name.struct");
    reveal_strlit("support.type");
    reveal_strlit("storage.type.class");
    reveal_strlit("variable");
    reveal_strlit("variable.other");
    reveal_strlit("variable.language");
    reveal_strlit("variable.language.this");
    reveal_strlit("variable.language.self");
    reveal_strlit("variable.special");
    reveal_strlit("variable.parameter");
    reveal_strlit("variable.other.member");
    reveal_strlit("property");
    reveal_strlit("variable.other.property");
    reveal_strlit("entity.other.attribute-name");
    reveal_strlit("attribute");
    reveal_strlit("entity.other.attribute-name.class");
    reveal_strlit("entity.other.attribute-name.id");
    reveal_strlit("punctuation");
    reveal_strlit("punctuation.definition");
    reveal_strlit("punctuation.delimiter");
    reveal_strlit("punctuation.definition.string");
    reveal_strlit("punctuation.definition.comment");
    reveal_strlit("punctuation.separator");
    reveal_strlit("punctuation.terminator");
    reveal_strlit("punctuation.accessor");
    reveal_strlit("punctuation.section.brackets");
    reveal_strlit("punctuation.section.brackets.begin");
    reveal_strlit("punctuation.section.brackets.end");
    reveal_strlit("punctuation.bracket");
    reveal_strlit("punctuation.section.parens");
    reveal_strlit("punctuation.section.parens.begin");
    reveal_strlit("punctuation.section.parens.end");
    reveal_strlit("punctuation.section.braces");
    reveal_strlit("punctuation.section.braces.begin");
    reveal_strlit("punctuation.section.braces.end");
    reveal_strlit("markup.heading");
    reveal_strlit("markup.heading.1");
    reveal_strlit("markup.heading.2");
    reveal_strlit("markup.heading.3");
    reveal_strlit("title");
    reveal_strlit("markup.bold");
    reveal_strlit("emphasis.strong");
    reveal_strlit("markup.italic");
    reveal_strlit("emphasis");
    reveal_strlit("markup.underline");
    reveal_strlit("markup.strikethrough");
    reveal_strlit("markup.list");
    reveal_strlit("punctuation.list_marker");
    reveal_strlit("markup.list.numbered");
    reveal_strlit("markup.list.unnumbered");
    reveal_strlit("markup.quote");
    reveal_strlit("markup.raw");
    reveal_strlit("markup.raw.inline");
    reveal_strlit("markup.raw.block");
    reveal_strlit("markup.fenced_code");
    reveal_strlit("markup.underline.link");
    reveal_strlit("link_uri");
    reveal_strlit("string.other.link");
    reveal_strlit("meta.link");
    reveal_strlit("link_text");
    reveal_strlit("entity.name.tag");
    reveal_strlit("tag");
    reveal_strlit("entity.name.tag.open");
    reveal_strlit("entity.name.tag.close");
    reveal_strlit("meta.preprocessor");
    reveal_strlit("preproc");
    reveal_strlit("keyword.control.directive");
    reveal_strlit("entity.name.function.preprocessor");
    reveal_strlit("entity.name.label");
    reveal_strlit("label");
    reveal_strlit("invalid");
    reveal_strlit("invalid.illegal");
    reveal_strlit("invalid.deprecated");
    reveal_strlit("error");
    reveal_strlit("support.class");
    reveal_strlit("support.constant");
    reveal_strlit("support.variable");
    reveal_strlit("entity.name.module");
    reveal_strlit("entity.name.namespace");
    reveal_strlit("documentation");
    reveal_strlit("function.constructor");
    reveal_strlit("class");
    reveal_strlit("interface");
    reveal_strlit("struct");
    reveal_strlit("member");
    reveal_strlit("numeric");
    reveal_strlit("bracket");
    reveal_strlit("punctuation.definition.bracket");
    let s = "punctuation.definition.bracket"@;
    assert("punctuation.definition.bracket"@[0] != "entity.other.attribute-name.id"@[0]);
    assert("punctuation.definition.bracket"@.len() != "punctuation"@.len());
    assert("punctuation.definition.bracket"@.len() != "punctuation.definition"@.len());
    assert("punctuation.definition.bracket"@[23] != "punctuation.definition.string"@[23]);
    assert("punctuation.definition.bracket"@[23] != "punctuation.definition.comment"@[23]);
    assert("punctuation.definition.bracket"@[12] != "punctuation.separator"@[12]);
    assert("punctuation.definition.bracket"@[12] != "punctuation.terminator"@[12]);
    assert("punctuation.definition.bracket"@[12] != "punctuation.accessor"@[12]);
    assert("punctuation.definition.bracket"@[12] != "punctuation.section.brackets"@[12]);
    assert("punctuation.definition.bracket"@[12] != "punctuation.section.brackets.begin"@[12]);
    assert("punctuation.definition.bracket"@[12] != "punctuation.section.brackets.end"@[12]);
    assert("punctuation.definition.bracket"@[12] != "punctuation.section.parens"@[12]);
    assert("punctuation.definition.bracket"@[12] != "punctuation.section.parens.begin"@[12]);
    assert("punctuation.definition.bracket"@[12] != "punctuation.section.parens.end"@[12]);
    assert("punctuation.definition.bracket"@[12] != "punctuation.section.braces"@[12]);
    assert("punctuation.definition.bracket"@[12] != "punctuation.section.braces.begin"@[12]);
    assert("punctuation.definition.bracket"@[12] != "punctuation.section.braces.end"@[12]);
    assert(!contains(s, "comment.doc"@)) by {
        if contains(s, "comment.doc"@) {
            lemma_contains_has_char(s, "comment.doc"@, 2);
        }
    }
    assert(!contains(s, "documentation"@)) by {
        if contains(s, "documentation"@) {
            lemma_contains_has_char(s, "documentation"@, 4);
        }
    }
    assert(!contains(s, "comment"@)) by {
        if contains(s, "comment"@) {
            lemma_contains_has_char(s, "comment"@, 2);
        }
    }
    assert(!contains(s, "string.regex"@)) by {
        if contains(s, "string.regex"@) {
            lemma_contains_has_char(s, "string.regex"@, 0);
        }
    }
    assert(!contains(s, "string.regexp"@)) by {
        if contains(s, "string.regexp"@) {
            lemma_contains_has_char(s, "string.regexp"@, 0);
        }
    }
    assert(!contains(s, "string"@)) by {
        if contains(s, "string"@) {
            lemma_contains_has_char(s, "string"@, 0);
        }
    }
    assert(!contains(s, "keyword.operator"@)) by {
        if contains(s, "keyword.operator"@) {
            lemma_contains_has_char(s, "keyword.operator"@, 2);
        }
    }
    assert(!contains(s, "operator"@)) by {
        if contains(s, "operator"@) {
            lemma_contains_pair(s, "operator"@, 0);
        }
    }
    assert(!contains(s, "keyword"@)) by {
        if contains(s, "keyword"@) {
            lemma_contains_has_char(s, "keyword"@, 2);
        }
    }
    assert(!contains(s, "function.constructor"@)) by {
        if contains(s, "function.constructor"@) {
            lemma_contains_has_char(s, "function.constructor"@, 12);
        }
    }
    assert(!contains(s, "constructor"@)) by {
        if contains(s, "constructor"@) {
            lemma_contains_has_char(s, "constructor"@, 3);
        }
    }
    assert(!contains(s, "function"@)) by {
        if contains(s, "function"@) {
            lemma_contains_pair(s, "function"@, 0);
        }
    }
    assert(!contains(s, "class"@)) by {
        if contains(s, "class"@) {
            lemma_contains_has_char(s, "class"@, 1);
        }
    }
    assert(!contains(s, "interface"@)) by {
        if contains(s, "interface"@) {
            lemma_contains_pair(s, "interface"@, 1);
        }
    }
    assert(!contains(s, "struct"@)) by {
        if contains(s, "struct"@) {
            lemma_contains_has_char(s, "struct"@, 0);
        }
    }
    assert(!contains(s, "enum"@)) by {
        if contains(s, "enum"@) {
            lemma_contains_has_char(s, "enum"@, 3);
        }
    }
    assert(!contains(s, "type"@)) by {
        if contains(s, "type"@) {
            lemma_contains_has_char(s, "type"@, 1);
        }
    }
    assert(!contains(s, "property"@)) by {
        if contains(s, "property"@) {
            lemma_contains_has_char(s, "property"@, 7);
        }
    }
    assert(!contains(s, "member"@)) by {
        if contains(s, "member"@) {
            lemma_contains_has_char(s, "member"@, 0);
        }
    }
    assert(!contains(s, "variable.special"@)) by {
        if contains(s, "variable.special"@) {
            lemma_contains_has_char(s, "variable.special"@, 0);
        }
    }
    assert(!contains(s, "variable.language"@)) by {
        if contains(s, "variable.language"@) {
            lemma_contains_has_char(s, "variable.language"@, 0);
        }
    }
    assert(!contains(s, "variable"@)) by {
        if contains(s, "variable"@) {
            lemma_contains_has_char(s, "variable"@, 0);
        }
    }
    assert(!contains(s, "attribute"@)) by {
        if contains(s, "attribute"@) {
            lemma_contains_pair(s, "attribute"@, 1);
        }
    }
    assert(!contains(s, "constant.numeric"@)) by {
        if contains(s, "constant.numeric"@) {
            lemma_contains_has_char(s, "constant.numeric"@, 3);
        }
    }
    assert(!contains(s, "numeric"@)) by {
        if contains(s, "numeric"@) {
            lemma_contains_has_char(s, "numeric"@, 2);
        }
    }
    assert(!contains(s, "constant.language.boolean"@)) by {
        if contains(s, "constant.language.boolean"@) {
            lemma_contains_has_char(s, "constant.language.boolean"@, 3);
        }
    }
    assert(!contains(s, "boolean"@)) by {
        if contains(s, "boolean"@) {
            lemma_contains_has_char(s, "boolean"@, 3);
        }
    }
    assert(!contains(s, "constant"@)) by {
        if contains(s, "constant"@) {
            lemma_contains_has_char(s, "constant"@, 3);
        }
    }
    assert(occurs_at(s, "bracket"@, 23)) by {
        assert(s.subrange(23, 30) =~= "bracket"@);
    }
}

/// The first TextMate scope a Zed syntax key is written as is read back as
/// that key.
#[verifier::spinoff_prover]
#[verifier::rlimit(100)]
pub proof fn lemma_first_scope_maps_back(k: Seq<char>)
    requires
        zed_key_scopes(k) is Some,
    ensures
        zed_key_scopes(k).unwrap().len() > 0,
        textmate_scope_key(zed_key_scopes(k).unwrap()[0]) == Some(k),
{
    reveal_strlit("comment");
    reveal_strlit("comment.line");
    reveal_strlit("comment.block");
    reveal_strlit("comment.block.documentation");
    reveal_strlit("comment.doc");
    reveal_strlit("keyword");
    reveal_strlit("keyword.control");
    reveal_strlit("keyword.control.flow");
    reveal_strlit("keyword.operator");
    reveal_strlit("operator");
    reveal_strlit("storage.type");
    reveal_strlit("storage.modifier");
    reveal_strlit("string");
    reveal_strlit("string.quoted");
    reveal_strlit("string.quoted.single");
    reveal_strlit("string.quoted.double");
    reveal_strlit("string.regexp");
    reveal_strlit("string.regex");
    reveal_strlit("string.unquoted");
    reveal_strlit("string.interpolated");
    reveal_strlit("constant.numeric");
    reveal_strlit("constant.numeric.integer");
    reveal_strlit("constant.numeric.float");
    reveal_strlit("number");
    reveal_strlit("constant.character");
    reveal_strlit("constant.character.escape");
    reveal_strlit("constant");
    reveal_strlit("constant.other");
    reveal_strlit("constant.language");
    reveal_strlit("boolean");
    reveal_strlit("constant.language.boolean");
    reveal_strlit("constant.language.null");
    reveal_strlit("entity.name.function");
    reveal_strlit("entity.name.function.member");
    reveal_strlit("function");
    reveal_strlit("entity.name.function.constructor");
    reveal_strlit("constructor");
    reveal_strlit("support.function");
    reveal_strlit("meta.function-call");
    reveal_strlit("entity.name.type");
    reveal_strlit("entity.name.class");
    reveal_strlit("type");
    reveal_strlit("entity.name.type.class");
    reveal_strlit("entity.name.enum");
    reveal_strlit("enum");
    reveal_strlit("entity.name.interface");
    reveal_strlit("entity.name.struct");
    reveal_strlit("support.type");
    reveal_strlit("storage.type.class");
    reveal_strlit("variable");
    reveal_strlit("variable.other");
    reveal_strlit("variable.language");
    reveal_strlit("variable.language.this");
    reveal_strlit("variable.language.self");
    reveal_strlit("variable.special");
    reveal_strlit("variable.parameter");
    reveal_strlit("variable.other.member");
    reveal_strlit("property");
    reveal_strlit("variable.other.property");
    reveal_strlit("entity.other.attribute-name");
    reveal_strlit("attribute");
    reveal_strlit("entity.other.attribute-name.class");
    reveal_strlit("entity.other.attribute-name.id");
    reveal_strlit("punctuation");
    reveal_strlit("punctuation.definition");
    reveal_strlit("punctuation.delimiter");
    reveal_strlit("punctuation.definition.string");
    reveal_strlit("punctuation.definition.comment");
    reveal_strlit("punctuation.separator");
    reveal_strlit("punctuation.terminator");
    reveal_strlit("punctuation.accessor");
    reveal_strlit("punctuation.section.brackets");
    reveal_strlit("punctuation.section.brackets.begin");
    reveal_strlit("punctuation.section.brackets.end");
    reveal_strlit("punctuation.bracket");
    reveal_strlit("punctuation.section.parens");
    reveal_strlit("punctuation.section.parens.begin");
    reveal_strlit("punctuation.section.parens.end");
    reveal_strlit("punctuation.section.braces");
    reveal_strlit("punctuation.section.braces.begin");
    reveal_strlit("punctuation.section.braces.end");
    reveal_strlit("markup.heading");
    reveal_strlit("markup.heading.1");
    reveal_strlit("markup.heading.2");
    reveal_strlit("markup.heading.3");
    reveal_strlit("title");
    reveal_strlit("markup.bold");
    reveal_strlit("emphasis.strong");
    reveal_strlit("markup.italic");
    reveal_strlit("emphasis");
    reveal_strlit("markup.underline");
    reveal_strlit("markup.strikethrough");
    reveal_strlit("markup.list");
    reveal_strlit("punctuation.list_marker");
    reveal_strlit("markup.list.numbered");
    reveal_strlit("markup.list.unnumbered");
    reveal_strlit("markup.quote");
    reveal_strlit("markup.raw");
    reveal_strlit("markup.raw.inline");
    reveal_strlit("markup.raw.block");
    reveal_strlit("markup.fenced_code");
    reveal_strlit("markup.underline.link");
    reveal_strlit("link_uri");
    reveal_strlit("string.other.link");
    reveal_strlit("meta.link");
    reveal_strlit("link_text");
    reveal_strlit("entity.name.tag");
    reveal_strlit("tag");
    reveal_strlit("entity.name.tag.open");
    reveal_strlit("entity.name.tag.close");
    reveal_strlit("meta.preprocessor");
    reveal_strlit("preproc");
    reveal_strlit("keyword.control.directive");
    reveal_strlit("entity.name.function.preprocessor");
    reveal_strlit("entity.name.label");
    reveal_strlit("label");
    reveal_strlit("invalid");
    reveal_strlit("invalid.illegal");
    reveal_strlit("invalid.deprecated");
    reveal_strlit("error");
    reveal_strlit("support.class");
    reveal_strlit("support.constant");
    reveal_strlit("support.variable");
    reveal_strlit("entity.name.module");
    reveal_strlit("entity.name.namespace");
    reveal_strlit("variable.other.special");
    reveal_strlit("punctuation.definition.bracket");
    if k == "comment"@ {
    } else if k == "comment.doc"@ {
        assert(textmate_scope_key("comment.block.documentation"@) == Some("comment.doc"@)) by {
            assert("comment.block.documentation"@.len() != "comment"@.len());
            assert("comment.block.documentation"@[8] != "comment.line"@[8]);
            assert("comment.block.documentation"@.len() != "comment.block"@.len());
        }
    } else if k == "keyword"@ {
        assert(textmate_scope_key("keyword"@) == Some("keyword"@)) by {
            assert("keyword"@[0] != "comment"@[0]);
        }
    } else if k == "string"@ {
        assert(textmate_scope_key("string"@) == Some("string"@)) by {
            assert("string"@[2] != "storage.type"@[2]);
            assert("string"@[2] != "storage.modifier"@[2]);
        }
    } else if k == "string.regex"@ {
        assert(textmate_scope_key("string.regexp"@) == Some("string.regex"@)) by {
            assert("string.regexp"@[0] != "comment.block"@[0]);
            assert("string.regexp"@[2] != "storage.type"@[2]);
            assert("string.regexp"@[2] != "storage.modifier"@[2]);
            assert("string.regexp"@.len() != "string"@.len());
            assert("string.regexp"@[7] != "string.quoted"@[7]);
            assert("string.regexp"@[7] != "string.quoted.single"@[7]);
            assert("string.regexp"@[7] != "string.quoted.double"@[7]);
        }
    } else if k == "number"@ {
        assert(textmate_scope_key("constant.numeric"@) == Some("number"@)) by {
            assert("constant.numeric"@[2] != "comment"@[2]);
            assert("constant.numeric"@[2] != "comment.line"@[2]);
            assert("constant.numeric"@[2] != "comment.block"@[2]);
            assert("constant.numeric"@[2] != "comment.block.documentation"@[2]);
            assert("constant.numeric"@[0] != "keyword.operator"@[0]);
            assert("constant.numeric"@[0] != "storage.modifier"@[0]);
        }
    } else if k == "constant"@ {
        assert(textmate_scope_key("constant"@) == Some("constant"@)) by {
            assert("constant"@[2] != "comment"@[2]);
            assert("constant"@[2] != "comment.line"@[2]);
            assert("constant"@[2] != "comment.block"@[2]);
            assert("constant"@[2] != "comment.block.documentation"@[2]);
            assert("constant"@.len() != "constant.numeric"@.len());
            assert("constant"@.len() != "constant.numeric.integer"@.len());
            assert("constant"@.len() != "constant.numeric.float"@.len());
            assert("constant"@.len() != "constant.character"@.len());
            assert("constant"@.len() != "constant.character.escape"@.len());
        }
    } else if k == "function"@ {
        assert(textmate_scope_key("entity.name.function"@) == Some("function"@)) by {
            assert("entity.name.function"@[0] != "keyword.control.flow"@[0]);
            assert("entity.name.function"@[0] != "string.quoted.single"@[0]);
            assert("entity.name.function"@[0] != "string.quoted.double"@[0]);
        }
    } else if k == "type"@ {
        assert(textmate_scope_key("entity.name.type"@) == Some("type"@)) by {
            assert("entity.name.type"@[0] != "keyword.operator"@[0]);
            assert("entity.name.type"@[0] != "storage.modifier"@[0]);
            assert("entity.name.type"@[0] != "constant.numeric"@[0]);
            assert("entity.name.type"@[12] != "entity.name.function"@[12]);
            assert("entity.name.type"@[12] != "entity.name.function.member"@[12]);
            assert("entity.name.type"@[12] != "entity.name.function.constructor"@[12]);
            assert("entity.name.type"@[0] != "support.function"@[0]);
        }
    } else if k == "variable"@ {
        assert(textmate_scope_key("variable"@) == Some("variable"@)) by {
            assert("variable"@[0] != "constant"@[0]);
        }
    } else if k == "variable.special"@ {
        assert(textmate_scope_key("variable.language"@) == Some("variable.special"@)) by {
            assert("variable.language"@[0] != "constant.language"@[0]);
            assert("variable.language"@[0] != "entity.name.class"@[0]);
            assert("variable.language"@.len() != "variable"@.len());
            assert("variable.language"@[9] != "variable.other"@[9]);
        }
    } else if k == "punctuation"@ {
    } else if k == "punctuation.delimiter"@ {
        assert(textmate_scope_key("punctuation.definition"@) == Some("punctuation.delimiter"@)) by {
            assert("punctuation.definition"@[0] != "constant.numeric.float"@[0]);
            assert("punctuation.definition"@[0] != "constant.language.null"@[0]);
            assert("punctuation.definition"@[0] != "entity.name.type.class"@[0]);
            assert("punctuation.definition"@[0] != "variable.language.this"@[0]);
            assert("punctuation.definition"@[0] != "variable.language.self"@[0]);
            assert("punctuation.definition"@.len() != "punctuation"@.len());
        }
    } else if k == "punctuation.bracket"@ {
        lemma_bracket_scope();
    } else if k == "operator"@ {
        assert(textmate_scope_key("keyword.operator"@) == Some("operator"@)) by {
            assert("keyword.operator"@.len() != "keyword"@.len());
            assert("keyword.operator"@[8] != "keyword.control"@[8]);
            assert("keyword.operator"@[8] != "keyword.control.flow"@[8]);
        }
    } else if k == "tag"@ {
        assert(textmate_scope_key("entity.name.tag"@) == Some("tag"@)) by {
            assert("entity.name.tag"@[0] != "keyword.control"@[0]);
            assert("entity.name.tag"@[0] != "string.unquoted"@[0]);
            assert("entity.name.tag"@[12] != "entity.name.function"@[12]);
            assert("entity.name.tag"@[12] != "entity.name.function.member"@[12]);
            assert("entity.name.tag"@[12] != "entity.name.function.constructor"@[12]);
            assert("entity.name.tag"@[13] != "entity.name.type"@[13]);
            assert("entity.name.tag"@[12] != "entity.name.class"@[12]);
            assert("entity.name.tag"@[13] != "entity.name.type.class"@[13]);
            assert("entity.name.tag"@[12] != "entity.name.enum"@[12]);
            assert("entity.name.tag"@[12] != "entity.name.interface"@[12]);
            assert("entity.name.tag"@[12] != "entity.name.struct"@[12]);
            assert("entity.name.tag"@[7] != "entity.other.attribute-name"@[7]);
            assert("entity.name.tag"@[7] != "entity.other.attribute-name.class"@[7]);
            assert("entity.name.tag"@[7] != "entity.other.attribute-name.id"@[7]);
        }
    } else if k == "title"@ {
        assert(textmate_scope_key("markup.heading"@) == Some("title"@)) by {
            assert("markup.heading"@[0] != "constant.other"@[0]);
            assert("markup.heading"@[1] != "meta.function-call"@[1]);
            assert("markup.heading"@[0] != "variable.other"@[0]);
        }
    } else if k == "emphasis.strong"@ {
        assert(textmate_scope_key("markup.bold"@) == Some("emphasis.strong"@)) by {
            assert("markup.bold"@[1] != "meta.function-call"@[1]);
            assert("markup.bold"@[0] != "punctuation"@[0]);
            assert("markup.bold"@[7] != "markup.heading"@[7]);
            assert("markup.bold"@[7] != "markup.heading.1"@[7]);
            assert("markup.bold"@[7] != "markup.heading.2"@[7]);
            assert("markup.bold"@[7] != "markup.heading.3"@[7]);
        }
    } else if k == "emphasis"@ {
        assert(textmate_scope_key("markup.italic"@) == Some("emphasis"@)) by {
            assert("markup.italic"@[0] != "comment.block"@[0]);
            assert("markup.italic"@[0] != "string.quoted"@[0]);
            assert("markup.italic"@[0] != "string.regexp"@[0]);
            assert("markup.italic"@[1] != "meta.function-call"@[1]);
            assert("markup.italic"@[7] != "markup.heading"@[7]);
            assert("markup.italic"@[7] != "markup.heading.1"@[7]);
            assert("markup.italic"@[7] != "markup.heading.2"@[7]);
            assert("markup.italic"@[7] != "markup.heading.3"@[7]);
            assert("markup.italic"@[7] != "markup.bold"@[7]);
        }
    } else if k == "error"@ {
        assert(textmate_scope_key("invalid"@) == Some("error"@)) by {
            assert("invalid"@[0] != "comment"@[0]);
            assert("invalid"@[0] != "keyword"@[0]);
        }
    } else if k == "constructor"@ {
        assert(textmate_scope_key("entity.name.function.constructor"@) == Some("constructor"@)) by {
            assert("entity.name.function.constructor"@.len() != "entity.name.function"@.len());
            assert("entity.name.function.constructor"@[21] != "entity.name.function.member"@[21]);
        }
    } else if k == "property"@ {
        assert(textmate_scope_key("variable.other.property"@) == Some("property"@)) by {
            assert("variable.other.property"@.len() != "variable"@.len());
            assert("variable.other.property"@.len() != "variable.other"@.len());
            assert("variable.other.property"@[9] != "variable.language"@[9]);
            assert("variable.other.property"@[9] != "variable.language.this"@[9]);
            assert("variable.other.property"@[9] != "variable.language.self"@[9]);
            assert("variable.other.property"@[9] != "variable.parameter"@[9]);
            assert("variable.other.property"@[15] != "variable.other.member"@[15]);
        }
    } else if k == "label"@ {
        assert(textmate_scope_key("entity.name.label"@) == Some("label"@)) by {
            assert("entity.name.label"@[0] != "constant.language"@[0]);
            assert("entity.name.label"@[12] != "entity.name.function"@[12]);
            assert("entity.name.label"@[12] != "entity.name.function.member"@[12]);
            assert("entity.name.label"@[12] != "entity.name.function.constructor"@[12]);
            assert("entity.name.label"@[12] != "entity.name.type"@[12]);
            assert("entity.name.label"@[12] != "entity.name.class"@[12]);
            assert("entity.name.label"@[12] != "entity.name.type.class"@[12]);
            assert("entity.name.label"@[12] != "entity.name.enum"@[12]);
            assert("entity.name.label"@[12] != "entity.name.interface"@[12]);
            assert("entity.name.label"@[12] != "entity.name.struct"@[12]);
            assert("entity.name.label"@[0] != "variable.language"@[0]);
            assert("entity.name.label"@[7] != "entity.other.attribute-name"@[7]);
            assert("entity.name.label"@[7] != "entity.other.attribute-name.class"@[7]);
            assert("entity.name.label"@[7] != "entity.other.attribute-name.id"@[7]);
            assert("entity.name.label"@[0] != "markup.raw.inline"@[0]);
            assert("entity.name.label"@[0] != "string.other.link"@[0]);
            assert("entity.name.label"@[12] != "entity.name.tag"@[12]);
            assert("entity.name.label"@[12] != "entity.name.tag.open"@[12]);
            assert("entity.name.label"@[12] != "entity.name.tag.close"@[12]);
            assert("entity.name.label"@[0] != "meta.preprocessor"@[0]);
            assert("entity.name.label"@[12] != "entity.name.function.preprocessor"@[12]);
        }
    }
}


/// Every TextMate scope a Zed syntax key is written as is read back as that
/// key, but two: `storage.type`, written for `type`, reads as `keyword`, and
/// `variable.other.special`, written for `variable.special`, reads as
/// `variable`.
#[verifier::spinoff_prover]
#[verifier::rlimit(100)]
pub proof fn lemma_listed_scopes_map_back(k: Seq<char>, i: int)
    requires
        zed_key_scopes(k) is Some,
        0 <= i < zed_key_scopes(k).unwrap().len(),
        !(k == "type"@ && zed_key_scopes(k).unwrap()[i] == "storage.type"@),
        !(k == "variable.special"@ && zed_key_scopes(k).unwrap()[i] == "variable.other.special"@),
    ensures
        textmate_scope_key(zed_key_scopes(k).unwrap()[i]) == Some(k),
{
    reveal_strlit("comment");
    reveal_strlit("comment.line");
    reveal_strlit("comment.block");
    reveal_strlit("comment.block.documentation");
    reveal_strlit("comment.doc");
    reveal_strlit("keyword");
    reveal_strlit("keyword.control");
    reveal_strlit("keyword.control.flow");
    reveal_strlit("keyword.operator");
    reveal_strlit("operator");
    reveal_strlit("storage.type");
    reveal_strlit("storage.modifier");
    reveal_strlit("string");
    reveal_strlit("string.quoted");
    reveal_strlit("string.quoted.single");
    reveal_strlit("string.quoted.double");
    reveal_strlit("string.regexp");
    reveal_strlit("string.regex");
    reveal_strlit("string.unquoted");
    reveal_strlit("string.interpolated");
    reveal_strlit("constant.numeric");
    reveal_strlit("constant.numeric.integer");
    reveal_strlit("constant.numeric.float");
    reveal_strlit("number");
    reveal_strlit("constant.character");
    reveal_strlit("constant.character.escape");
    reveal_strlit("constant");
    reveal_strlit("constant.other");
    reveal_strlit("constant.language");
    reveal_strlit("boolean");
    reveal_strlit("constant.language.boolean");
    reveal_strlit("constant.language.null");
    reveal_strlit("entity.name.function");
    reveal_strlit("entity.name.function.member");
    reveal_strlit("function");
    reveal_strlit("entity.name.function.constructor");
    reveal_strlit("constructor");
    reveal_strlit("support.function");
    reveal_strlit("meta.function-call");
    reveal_strlit("entity.name.type");
    reveal_strlit("entity.name.class");
    reveal_strlit("type");
    reveal_strlit("entity.name.type.class");
    reveal_strlit("entity.name.enum");
    reveal_strlit("enum");
    reveal_strlit("entity.name.interface");
    reveal_strlit("entity.name.struct");
    reveal_strlit("support.type");
    reveal_strlit("storage.type.class");
    reveal_strlit("variable");
    reveal_strlit("variable.other");
    reveal_strlit("variable.language");
    reveal_strlit("variable.language.this");
    reveal_strlit("variable.language.self");
    reveal_strlit("variable.special");
    reveal_strlit("variable.parameter");
    reveal_strlit("variable.other.member");
    reveal_strlit("property");
    reveal_strlit("variable.other.property");
    reveal_strlit("entity.other.attribute-name");
    reveal_strlit("attribute");
    reveal_strlit("entity.other.attribute-name.class");
    reveal_strlit("entity.other.attribute-name.id");
    reveal_strlit("punctuation");
    reveal_strlit("punctuation.definition");
    reveal_strlit("punctuation.delimiter");
    reveal_strlit("punctuation.definition.string");
    reveal_strlit("punctuation.definition.comment");
    reveal_strlit("punctuation.separator");
    reveal_strlit("punctuation.terminator");
    reveal_strlit("punctuation.accessor");
    reveal_strlit("punctuation.section.brackets");
    reveal_strlit("punctuation.section.brackets.begin");
    reveal_strlit("punctuation.section.brackets.end");
    reveal_strlit("punctuation.bracket");
    reveal_strlit("punctuation.section.parens");
    reveal_strlit("punctuation.section.parens.begin");
    reveal_strlit("punctuation.section.parens.end");
    reveal_strlit("punctuation.section.braces");
    reveal_strlit("punctuation.section.braces.begin");
    reveal_strlit("punctuation.section.braces.end");
    reveal_strlit("markup.heading");
    reveal_strlit("markup.heading.1");
    reveal_strlit("markup.heading.2");
    reveal_strlit("markup.heading.3");
    reveal_strlit("title");
    reveal_strlit("markup.bold");
    reveal_strlit("emphasis.strong");
    reveal_strlit("markup.italic");
    reveal_strlit("emphasis");
    reveal_strlit("markup.underline");
    reveal_strlit("markup.strikethrough");
    reveal_strlit("markup.list");
    reveal_strlit("punctuation.list_marker");
    reveal_strlit("markup.list.numbered");
    reveal_strlit("markup.list.unnumbered");
    reveal_strlit("markup.quote");
    reveal_strlit("markup.raw");
    reveal_strlit("markup.raw.inline");
    reveal_strlit("markup.raw.block");
    reveal_strlit("markup.fenced_code");
    reveal_strlit("markup.underline.link");
    reveal_strlit("link_uri");
    reveal_strlit("string.other.link");
    reveal_strlit("meta.link");
    reveal_strlit("link_text");
    reveal_strlit("entity.name.tag");
    reveal_strlit("tag");
    reveal_strlit("entity.name.tag.open");
    reveal_strlit("entity.name.tag.close");
    reveal_strlit("meta.preprocessor");
    reveal_strlit("preproc");
    reveal_strlit("keyword.control.directive");
    reveal_strlit("entity.name.function.preprocessor");
    reveal_strlit("entity.name.label");
    reveal_strlit("label");
    reveal_strlit("invalid");
    reveal_strlit("invalid.illegal");
    reveal_strlit("invalid.deprecated");
    reveal_strlit("error");
    reveal_strlit("support.class");
    reveal_strlit("support.constant");
    reveal_strlit("support.variable");
    reveal_strlit("entity.name.module");
    reveal_strlit("entity.name.namespace");
    reveal_strlit("variable.other.special");
    reveal_strlit("punctuation.definition.bracket");
    if k == "comment"@ {
        if i == 0 {
        }
    } else if k == "comment.doc"@ {
        if i == 0 {
            assert(textmate_scope_key("comment.block.documentation"@) == Some("comment.doc"@)) by {
                assert("comment.block.documentation"@.len() != "comment"@.len());
                assert("comment.block.documentation"@[8] != "comment.line"@[8]);
                assert("comment.block.documentation"@.len() != "comment.block"@.len());
            }
        }
    } else if k == "keyword"@ {
        if i == 0 {
            assert(textmate_scope_key("keyword"@) == Some("keyword"@)) by {
                assert("keyword"@[0] != "comment"@[0]);
            }
        }
        if i == 1 {
            assert(textmate_scope_key("keyword.control"@) == Some("keyword"@)) by {
                assert("keyword.control"@.len() != "keyword"@.len());
            }
        }
    } else if k == "string"@ {
        if i == 0 {
            assert(textmate_scope_key("string"@) == Some("string"@)) by {
                assert("string"@[2] != "storage.type"@[2]);
                assert("string"@[2] != "storage.modifier"@[2]);
            }
        }
        if i == 1 {
            assert(textmate_scope_key("string.quoted"@) == Some("string"@)) by {
                assert("string.quoted"@[0] != "comment.block"@[0]);
                assert("string.quoted"@[2] != "storage.type"@[2]);
                assert("string.quoted"@[2] != "storage.modifier"@[2]);
                assert("string.quoted"@.len() != "string"@.len());
            }
        }
    } else if k == "string.regex"@ {
        if i == 0 {
            assert(textmate_scope_key("string.regexp"@) == Some("string.regex"@)) by {
                assert("string.regexp"@[0] != "comment.block"@[0]);
                assert("string.regexp"@[2] != "storage.type"@[2]);
                assert("string.regexp"@[2] != "storage.modifier"@[2]);
                assert("string.regexp"@.len() != "string"@.len());
                assert("string.regexp"@[7] != "string.quoted"@[7]);
                assert("string.regexp"@[7] != "string.quoted.single"@[7]);
                assert("string.regexp"@[7] != "string.quoted.double"@[7]);
            }
        }
    } else if k == "number"@ {
        if i == 0 {
            assert(textmate_scope_key("constant.numeric"@) == Some("number"@)) by {
                assert("constant.numeric"@[2] != "comment"@[2]);
                assert("constant.numeric"@[2] != "comment.line"@[2]);
                assert("constant.numeric"@[2] != "comment.block"@[2]);
                assert("constant.numeric"@[2] != "comment.block.documentation"@[2]);
                assert("constant.numeric"@[0] != "keyword.operator"@[0]);
                assert("constant.numeric"@[0] != "storage.modifier"@[0]);
            }
        }
    } else if k == "constant"@ {
        if i == 0 {
            assert(textmate_scope_key("constant"@) == Some("constant"@)) by {
                assert("constant"@[2] != "comment"@[2]);
                assert("constant"@[2] != "comment.line"@[2]);
                assert("constant"@[2] != "comment.block"@[2]);
                assert("constant"@[2] != "comment.block.documentation"@[2]);
                assert("constant"@.len() != "constant.numeric"@.len());
                assert("constant"@.len() != "constant.numeric.integer"@.len());
                assert("constant"@.len() != "constant.numeric.float"@.len());
                assert("constant"@.len() != "constant.character"@.len());
                assert("constant"@.len() != "constant.character.escape"@.len());
            }
        }
    } else if k == "function"@ {
        if i == 0 {
            assert(textmate_scope_key("entity.name.function"@) == Some("function"@)) by {
                assert("entity.name.function"@[0] != "keyword.control.flow"@[0]);
                assert("entity.name.function"@[0] != "string.quoted.single"@[0]);
                assert("entity.name.function"@[0] != "string.quoted.double"@[0]);
            }
        }
        if i == 1 {
            assert(textmate_scope_key("support.function"@) == Some("function"@)) by {
                assert("support.function"@[0] != "keyword.operator"@[0]);
                assert("support.function"@[1] != "storage.type"@[1]);
                assert("support.function"@[1] != "storage.modifier"@[1]);
                assert("support.function"@[1] != "string"@[1]);
                assert("support.function"@[1] != "string.quoted"@[1]);
                assert("support.function"@[1] != "string.quoted.single"@[1]);
                assert("support.function"@[1] != "string.quoted.double"@[1]);
                assert("support.function"@[1] != "string.regexp"@[1]);
                assert("support.function"@[1] != "string.regex"@[1]);
                assert("support.function"@[1] != "string.unquoted"@[1]);
                assert("support.function"@[1] != "string.interpolated"@[1]);
                assert("support.function"@[0] != "constant.numeric"@[0]);
            }
        }
    } else if k == "type"@ {
        if i == 0 {
            assert(textmate_scope_key("entity.name.type"@) == Some("type"@)) by {
                assert("entity.name.type"@[0] != "keyword.operator"@[0]);
                assert("entity.name.type"@[0] != "storage.modifier"@[0]);
                assert("entity.name.type"@[0] != "constant.numeric"@[0]);
                assert("entity.name.type"@[12] != "entity.name.function"@[12]);
                assert("entity.name.type"@[12] != "entity.name.function.member"@[12]);
                assert("entity.name.type"@[12] != "entity.name.function.constructor"@[12]);
                assert("entity.name.type"@[0] != "support.function"@[0]);
            }
        }
        if i == 1 {
            assert(textmate_scope_key("support.type"@) == Some("type"@)) by {
                assert("support.type"@[0] != "comment.line"@[0]);
                assert("support.type"@[1] != "storage.type"@[1]);
                assert("support.type"@[1] != "storage.modifier"@[1]);
                assert("support.type"@[1] != "string"@[1]);
                assert("support.type"@[1] != "string.quoted"@[1]);
                assert("support.type"@[1] != "string.quoted.single"@[1]);
                assert("support.type"@[1] != "string.quoted.double"@[1]);
                assert("support.type"@[1] != "string.regexp"@[1]);
                assert("support.type"@[1] != "string.regex"@[1]);
                assert("support.type"@[1] != "string.unquoted"@[1]);
                assert("support.type"@[1] != "string.interpolated"@[1]);
                assert("support.type"@[8] != "support.function"@[8]);
            }
        }
    } else if k == "variable"@ {
        if i == 0 {
            assert(textmate_scope_key("variable"@) == Some("variable"@)) by {
                assert("variable"@[0] != "constant"@[0]);
            }
        }
    } else if k == "variable.special"@ {
        if i == 0 {
            assert(textmate_scope_key("variable.language"@) == Some("variable.special"@)) by {
                assert("variable.language"@[0] != "constant.language"@[0]);
                assert("variable.language"@[0] != "entity.name.class"@[0]);
                assert("variable.language"@.len() != "variable"@.len());
                assert("variable.language"@[9] != "variable.other"@[9]);
            }
        }
    } else if k == "punctuation"@ {
        if i == 0 {
        }
    } else if k == "punctuation.delimiter"@ {
        if i == 0 {
            assert(textmate_scope_key("punctuation.definition"@) == Some("punctuation.delimiter"@)) by {
                assert("punctuation.definition"@[0] != "constant.numeric.float"@[0]);
                assert("punctuation.definition"@[0] != "constant.language.null"@[0]);
                assert("punctuation.definition"@[0] != "entity.name.type.class"@[0]);
                assert("punctuation.definition"@[0] != "variable.language.this"@[0]);
                assert("punctuation.definition"@[0] != "variable.language.self"@[0]);
                assert("punctuation.definition"@.len() != "punctuation"@.len());
            }
        }
    } else if k == "punctuation.bracket"@ {
        if i == 0 {
            lemma_bracket_scope();
        }
    } else if k == "operator"@ {
        if i == 0 {
            assert(textmate_scope_key("keyword.operator"@) == Some("operator"@)) by {
                assert("keyword.operator"@.len() != "keyword"@.len());
                assert("keyword.operator"@[8] != "keyword.control"@[8]);
                assert("keyword.operator"@[8] != "keyword.control.flow"@[8]);
            }
        }
    } else if k == "tag"@ {
        if i == 0 {
            assert(textmate_scope_key("entity.name.tag"@) == Some("tag"@)) by {
                assert("entity.name.tag"@[0] != "keyword.control"@[0]);
                assert("entity.name.tag"@[0] != "string.unquoted"@[0]);
                assert("entity.name.tag"@[12] != "entity.name.function"@[12]);
                assert("entity.name.tag"@[12] != "entity.name.function.member"@[12]);
                assert("entity.name.tag"@[12] != "entity.name.function.constructor"@[12]);
                assert("entity.name.tag"@[13] != "entity.name.type"@[13]);
                assert("entity.name.tag"@[12] != "entity.name.class"@[12]);
                assert("entity.name.tag"@[13] != "entity.name.type.class"@[13]);
                assert("entity.name.tag"@[12] != "entity.name.enum"@[12]);
                assert("entity.name.tag"@[12] != "entity.name.interface"@[12]);
                assert("entity.name.tag"@[12] != "entity.name.struct"@[12]);
                assert("entity.name.tag"@[7] != "entity.other.attribute-name"@[7]);
                assert("entity.name.tag"@[7] != "entity.other.attribute-name.class"@[7]);
                assert("entity.name.tag"@[7] != "entity.other.attribute-name.id"@[7]);
            }
        }
    } else if k == "title"@ {
        if i == 0 {
            assert(textmate_scope_key("markup.heading"@) == Some("title"@)) by {
                assert("markup.heading"@[0] != "constant.other"@[0]);
                assert("markup.heading"@[1] != "meta.function-call"@[1]);
                assert("markup.heading"@[0] != "variable.other"@[0]);
            }
        }
    } else if k == "emphasis.strong"@ {
        if i == 0 {
            assert(textmate_scope_key("markup.bold"@) == Some("emphasis.strong"@)) by {
                assert("markup.bold"@[1] != "meta.function-call"@[1]);
                assert("markup.bold"@[0] != "punctuation"@[0]);
                assert("markup.bold"@[7] != "markup.heading"@[7]);
                assert("markup.bold"@[7] != "markup.heading.1"@[7]);
                assert("markup.bold"@[7] != "markup.heading.2"@[7]);
                assert("markup.bold"@[7] != "markup.heading.3"@[7]);
            }
        }
    } else if k == "emphasis"@ {
        if i == 0 {
            assert(textmate_scope_key("markup.italic"@) == Some("emphasis"@)) by {
                assert("markup.italic"@[0] != "comment.block"@[0]);
                assert("markup.italic"@[0] != "string.quoted"@[0]);
                assert("markup.italic"@[0] != "string.regexp"@[0]);
                assert("markup.italic"@[1] != "meta.function-call"@[1]);
                assert("markup.italic"@[7] != "markup.heading"@[7]);
                assert("markup.italic"@[7] != "markup.heading.1"@[7]);
                assert("markup.italic"@[7] != "markup.heading.2"@[7]);
                assert("markup.italic"@[7] != "markup.heading.3"@[7]);
                assert("markup.italic"@[7] != "markup.bold"@[7]);
            }
        }
    } else if k == "error"@ {
        if i == 0 {
            assert(textmate_scope_key("invalid"@) == Some("error"@)) by {
                assert("invalid"@[0] != "comment"@[0]);
                assert("invalid"@[0] != "keyword"@[0]);
            }
        }
        if i == 1 {
            assert(textmate_scope_key("invalid.illegal"@) == Some("error"@)) by {
                assert("invalid.illegal"@[0] != "keyword.control"@[0]);
                assert("invalid.illegal"@[0] != "string.unquoted"@[0]);
                assert("invalid.illegal"@[0] != "entity.name.tag"@[0]);
                assert("invalid.illegal"@.len() != "invalid"@.len());
            }
        }
    } else if k == "constructor"@ {
        if i == 0 {
            assert(textmate_scope_key("entity.name.function.constructor"@) == Some("constructor"@)) by {
                assert("entity.name.function.constructor"@.len() != "entity.name.function"@.len());
                assert("entity.name.function.constructor"@[21] != "entity.name.function.member"@[21]);
            }
        }
    } else if k == "property"@ {
        if i == 0 {
            assert(textmate_scope_key("variable.other.property"@) == Some("property"@)) by {
                assert("variable.other.property"@.len() != "variable"@.len());
                assert("variable.other.property"@.len() != "variable.other"@.len());
                assert("variable.other.property"@[9] != "variable.language"@[9]);
                assert("variable.other.property"@[9] != "variable.language.this"@[9]);
                assert("variable.other.property"@[9] != "variable.language.self"@[9]);
                assert("variable.other.property"@[9] != "variable.parameter"@[9]);
                assert("variable.other.property"@[15] != "variable.other.member"@[15]);
            }
        }
    } else if k == "label"@ {
        if i == 0 {
            assert(textmate_scope_key("entity.name.label"@) == Some("label"@)) by {
                assert("entity.name.label"@[0] != "constant.language"@[0]);
                assert("entity.name.label"@[12] != "entity.name.function"@[12]);
                assert("entity.name.label"@[12] != "entity.name.function.member"@[12]);
                assert("entity.name.label"@[12] != "entity.name.function.constructor"@[12]);
                assert("entity.name.label"@[12] != "entity.name.type"@[12]);
                assert("entity.name.label"@[12] != "entity.name.class"@[12]);
                assert("entity.name.label"@[12] != "entity.name.type.class"@[12]);
                assert("entity.name.label"@[12] != "entity.name.enum"@[12]);
                assert("entity.name.label"@[12] != "entity.name.interface"@[12]);
                assert("entity.name.label"@[12] != "entity.name.struct"@[12]);
                assert("entity.name.label"@[0] != "variable.language"@[0]);
                assert("entity.name.label"@[7] != "entity.other.attribute-name"@[7]);
                assert("entity.name.label"@[7] != "entity.other.attribute-name.class"@[7]);
                assert("entity.name.label"@[7] != "entity.other.attribute-name.id"@[7]);
                assert("entity.name.label"@[0] != "markup.raw.inline"@[0]);
                assert("entity.name.label"@[0] != "string.other.link"@[0]);
                assert("entity.name.label"@[12] != "entity.name.tag"@[12]);
                assert("entity.name.label"@[12] != "entity.name.tag.open"@[12]);
                assert("entity.name.label"@[12] != "entity.name.tag.close"@[12]);
                assert("entity.name.label"@[0] != "meta.preprocessor"@[0]);
                assert("entity.name.label"@[12] != "entity.name.function.preprocessor"@[12]);
            }
        }
    }
}

} // verus!
