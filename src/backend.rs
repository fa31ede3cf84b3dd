//! TypeScript language backend: type mapping, identifiers, documentation
//! comments, interfaces and type aliases.

use vstd::prelude::*;
use crate::casing::{
    lower_camel_case, pascal_case, str_uppercase, to_lower_camel_case, to_pascal_case, uppercase,
};
use crate::error::Error;
use crate::generator::{IdentifierContext, LanguageBackend};
use crate::ir::{Documentation, PropertyType};
use crate::text::{byte_len, join, joined, split_words, str_eq, utf8_len, words};

verus! {

/// The text of each string.
pub open spec fn texts(v: Seq<String>) -> Seq<Seq<char>> {
    v.map_values(|s: String| s@)
}

/// Each line with `p` in front.
pub open spec fn prefixed(lines: Seq<Seq<char>>, p: Seq<char>) -> Seq<Seq<char>> {
    lines.map_values(|l: Seq<char>| p + l)
}

/// The TypeScript type of a FHIR primitive; other codes map to themselves.
pub open spec fn primitive_ts(t: Seq<char>) -> Seq<char> {
    if t == "boolean"@ {
        "boolean"@
    } else if t == "integer"@ || t == "positiveInt"@ || t == "unsignedInt"@ || t == "integer64"@
        || t == "decimal"@ {
        "number"@
    } else if t == "string"@ || t == "code"@ || t == "id"@ || t == "markdown"@ || t == "uri"@
        || t == "url"@ || t == "canonical"@ || t == "oid"@ || t == "uuid"@ || t == "date"@ || t
        == "dateTime"@ || t == "instant"@ || t == "time"@ || t == "base64Binary"@ || t
        == "xhtml"@ {
        "string"@
    } else {
        t
    }
}

/// `s` with each `-`, space and `.` replaced by `_`.
pub open spec fn sanitized(s: Seq<char>) -> Seq<char> {
    s.map_values(|c: char| if c == '-' || c == ' ' || c == '.' { '_' } else { c })
}

/// Each name in double quotes.
pub open spec fn quoted(v: Seq<Seq<char>>) -> Seq<Seq<char>> {
    v.map_values(|t: Seq<char>| "\""@ + t + "\""@)
}

/// The TypeScript type of a property type.
pub open spec fn ts_type_of(pt: PropertyType) -> Seq<char> {
    match pt {
        PropertyType::Primitive { name } => primitive_ts(name@),
        PropertyType::Complex { name } => name@,
        PropertyType::Reference { target_types } => if target_types@.len() == 0 {
            "Reference"@
        } else if target_types@.len() == 1 {
            "Reference<\""@ + target_types@[0]@ + "\">"@
        } else {
            "Reference<"@ + joined(quoted(texts(target_types@)), " | "@) + ">"@
        },
        PropertyType::BackboneElement { .. } => "BackboneElement"@,
        PropertyType::Choice { types } => joined(
            texts(types@).map_values(|t: Seq<char>| primitive_ts(t)),
            " | "@,
        ),
    }
}

/// Lines so far and the line being filled when wrapping `ws` greedily at
/// `width` bytes.
pub open spec fn wrap_state(ws: Seq<Seq<char>>, width: int) -> (Seq<Seq<char>>, Seq<char>)
    decreases ws.len(),
{
    if ws.len() == 0 {
        (Seq::empty(), Seq::empty())
    } else {
        let (lines, cur) = wrap_state(ws.drop_last(), width);
        let w = ws.last();
        let (lines, cur) = if utf8_len(cur) + utf8_len(w) + 1 > width && cur.len() > 0 {
            (lines.push(cur), Seq::<char>::empty())
        } else {
            (lines, cur)
        };
        (lines, if cur.len() > 0 {
            cur + " "@ + w
        } else {
            w
        })
    }
}

/// The words of `text` in lines of at most `width` bytes, a longer word
/// standing alone.
pub open spec fn wrapped(text: Seq<char>, width: int) -> Seq<Seq<char>> {
    let (lines, cur) = wrap_state(words(text), width);
    if cur.len() > 0 {
        lines.push(cur)
    } else {
        lines
    }
}

/// The documentation comment lines of `d`.
pub open spec fn doc_comment_lines(d: Documentation) -> Seq<Seq<char>> {
    seq!["/**"@] + (if d.short@.len() > 0 {
        seq![" * "@ + d.short@]
    } else {
        Seq::empty()
    }) + (if d.definition@.len() > 0 && d.definition@ != d.short@ {
        seq![" *"@] + prefixed(wrapped(d.definition@, 80), " * "@)
    } else {
        Seq::empty()
    }) + (match d.comments {
        Some(c) => seq![" *"@] + prefixed(wrapped(c@, 80), " * "@),
        None => Seq::empty(),
    }) + (match d.url {
        Some(u) => seq![" *"@, " * @see "@ + u@],
        None => Seq::empty(),
    }) + seq![" */"@]
}

/// The lines, each followed by a newline.
pub open spec fn lines_text(ls: Seq<Seq<char>>) -> Seq<char>
    decreases ls.len(),
{
    if ls.len() == 0 {
        Seq::empty()
    } else {
        lines_text(ls.drop_last()) + ls.last() + "\n"@
    }
}

/// The member lines of an interface: name, `?` when optional, type.
pub open spec fn members_text(ps: Seq<(String, String, bool)>) -> Seq<char>
    decreases ps.len(),
{
    if ps.len() == 0 {
        Seq::empty()
    } else {
        let p = ps.last();
        members_text(ps.drop_last()) + "  "@ + p.0@ + (if p.2 {
            "?"@
        } else {
            Seq::empty()
        }) + ": "@ + p.1@ + ";\n"@
    }
}

/// The documentation comment of an optional documentation, as text.
pub open spec fn doc_text(doc: Option<&Documentation>) -> Seq<char> {
    match doc {
        Some(d) => lines_text(doc_comment_lines(*d)),
        None => Seq::empty(),
    }
}

/// An interface declaration.
pub open spec fn interface_text(
    name: Seq<char>,
    extends: Option<Seq<char>>,
    ps: Seq<(String, String, bool)>,
    doc: Option<&Documentation>,
) -> Seq<char> {
    doc_text(doc) + "export interface "@ + name + (match extends {
        Some(b) => " extends "@ + b,
        None => Seq::empty(),
    }) + " {\n"@ + members_text(ps) + "}\n"@
}

/// A type alias declaration.
pub open spec fn type_alias_text(name: Seq<char>, def: Seq<char>, doc: Option<&Documentation>) -> Seq<char> {
    doc_text(doc) + "export type "@ + name + " = "@ + def + ";\n"@
}

/// The identifier `name` formatted for `context`.
pub open spec fn identifier_for(name: Seq<char>, context: IdentifierContext) -> Seq<char> {
    match context {
        IdentifierContext::TypeName => pascal_case(name),
        IdentifierContext::ConstantName => str_uppercase(name),
        _ => lower_camel_case(name),
    }
}

/// Appends each of `items`, with `prefix` in front, to `lines`.
pub(crate) fn push_prefixed(lines: &mut Vec<String>, items: &Vec<String>, prefix: &str)
    ensures
        texts(final(lines)@) == texts(old(lines)@) + prefixed(texts(items@), prefix@),
{
    let mut i: usize = 0;
    while i < items.len()
        invariant
            i <= items@.len(),
            texts(lines@) == texts(old(lines)@) + prefixed(texts(items@.subrange(0, i as int)), prefix@),
        decreases items.len() - i,
    {
        let mut l = prefix.to_owned();
        l.append(items[i].as_str());
        let ghost before = texts(lines@);
        lines.push(l);
        assert(texts(lines@) =~= before.push(prefix@ + items@[i as int]@));
        assert(prefixed(texts(items@.subrange(0, i + 1)), prefix@) =~= prefixed(
            texts(items@.subrange(0, i as int)),
            prefix@,
        ).push(prefix@ + items@[i as int]@));
        i = i + 1;
    }
    assert(items@.subrange(0, items@.len() as int) =~= items@);
}

/// Appends `s` to `lines`.
pub(crate) fn push_line(lines: &mut Vec<String>, s: String)
    ensures
        texts(final(lines)@) == texts(old(lines)@) + seq![s@],
{
    lines.push(s);
    assert(texts(lines@) =~= texts(old(lines)@) + seq![s@]);
}

/// TypeScript language backend.
#[derive(Debug, Clone)]
pub struct TypeScriptBackend {
    target_version: String,
}

impl TypeScriptBackend {
    /// The TypeScript version targeted.
    pub closed spec fn version(&self) -> Seq<char> {
        self.target_version@
    }

    /// A backend targeting TypeScript 5.9.
    pub fn new() -> (r: Self)
        ensures
            r.version() == "5.9"@,
    {
        TypeScriptBackend { target_version: "5.9".to_owned() }
    }

    /// A backend targeting `version`.
    pub fn with_version(version: String) -> (r: Self)
        ensures
            r.version() == version@,
    {
        TypeScriptBackend { target_version: version }
    }

    /// `name` made a valid identifier: `-`, space and `.` become `_`.
    pub fn sanitize_identifier(name: &str) -> (r: String)
        ensures
            r@ == sanitized(name@),
    {
        let n = name.unicode_len();
        let mut r = String::new();
        let mut i: usize = 0;
        while i < n
            invariant
                n == name@.len(),
                i <= n,
                r@ == sanitized(name@.subrange(0, i as int)),
            decreases n - i,
        {
            let c = name.get_char(i);
            if c == '-' || c == ' ' || c == '.' {
                r.append("_");
            } else {
                r.append(name.substring_char(i, i + 1));
            }
            assert(sanitized(name@.subrange(0, i + 1)) =~= sanitized(name@.subrange(0, i as int)).push(
                if c == '-' || c == ' ' || c == '.' { '_' } else { c },
            ));
            proof { reveal_strlit("_"); }
            assert(r@ =~= sanitized(name@.subrange(0, i + 1)));
            i = i + 1;
        }
        assert(name@.subrange(0, n as int) =~= name@);
        r
    }

    /// The TypeScript type of a FHIR primitive.
    pub fn map_primitive_type(fhir_type: &str) -> (r: String)
        ensures
            r@ == primitive_ts(fhir_type@),
    {
        let t = fhir_type;
        if str_eq(t, "boolean") {
            "boolean".to_owned()
        } else if str_eq(t, "integer") || str_eq(t, "positiveInt") || str_eq(t, "unsignedInt")
            || str_eq(t, "integer64") || str_eq(t, "decimal") {
            "number".to_owned()
        } else if str_eq(t, "string") || str_eq(t, "code") || str_eq(t, "id") || str_eq(t, "markdown")
            || str_eq(t, "uri") || str_eq(t, "url") || str_eq(t, "canonical") || str_eq(t, "oid")
            || str_eq(t, "uuid") || str_eq(t, "date") || str_eq(t, "dateTime") || str_eq(t, "instant")
            || str_eq(t, "time") || str_eq(t, "base64Binary") || str_eq(t, "xhtml") {
            "string".to_owned()
        } else {
            t.to_owned()
        }
    }

    /// Wraps the words of `text` into lines of at most `width` bytes.
    pub fn wrap_text(text: &str, width: usize) -> (r: Vec<String>)
        ensures
            texts(r@) == wrapped(text@, width as int),
    {
        let ws = split_words(text);
        let ghost wv = texts(ws@);
        assert(wv == words(text@));
        let mut lines: Vec<String> = Vec::new();
        let mut cur = String::new();
        let mut i: usize = 0;
        while i < ws.len()
            invariant
                i <= ws@.len(),
                wv == texts(ws@),
                (texts(lines@), cur@) == wrap_state(wv.subrange(0, i as int), width as int),
            decreases ws.len() - i,
        {
            assert(wv.subrange(0, i + 1).drop_last() =~= wv.subrange(0, i as int));
            let w = ws[i].as_str();
            let cl = byte_len(cur.as_str());
            let wl = byte_len(w);
            if cl + wl + 1 > width as u128 && cur.unicode_len() > 0 {
                let ghost before = texts(lines@);
                lines.push(cur);
                assert(texts(lines@) =~= before.push(wrap_state(wv.subrange(0, i as int), width as int).1));
                cur = String::new();
            }
            if cur.unicode_len() > 0 {
                cur.append(" ");
            }
            cur.append(w);
            i = i + 1;
        }
        assert(wv.subrange(0, ws@.len() as int) =~= wv);
        if cur.unicode_len() > 0 {
            let ghost before = texts(lines@);
            lines.push(cur);
            assert(texts(lines@) =~= before.push(wrap_state(wv, width as int).1));
        }
        lines
    }

    /// The TypeScript type of a property type.
    pub fn map_type(&self, property_type: &PropertyType) -> (r: String)
        ensures
            r@ == ts_type_of(*property_type),
    {
        match property_type {
            PropertyType::Primitive { name } => Self::map_primitive_type(name.as_str()),
            PropertyType::Complex { name } => name.clone(),
            PropertyType::Reference { target_types } => {
                if target_types.len() == 0 {
                    "Reference".to_owned()
                } else if target_types.len() == 1 {
                    let mut r = "Reference<\"".to_owned();
                    r.append(target_types[0].as_str());
                    r.append("\">");
                    r
                } else {
                    let mut q: Vec<String> = Vec::new();
                    let mut i: usize = 0;
                    while i < target_types.len()
                        invariant
                            i <= target_types@.len(),
                            q@.len() == i,
                            forall|k: int| 0 <= k < i ==> q@[k]@ == "\""@ + target_types@[k]@ + "\""@,
                        decreases target_types.len() - i,
                    {
                        let mut t = "\"".to_owned();
                        t.append(target_types[i].as_str());
                        t.append("\"");
                        q.push(t);
                        i = i + 1;
                    }
                    assert(texts(q@) =~= quoted(texts(target_types@)));
                    let mut r = "Reference<".to_owned();
                    r.append(join(q.as_slice(), " | ").as_str());
                    r.append(">");
                    r
                }
            },
            PropertyType::BackboneElement { .. } => "BackboneElement".to_owned(),
            PropertyType::Choice { types } => {
                let mut m: Vec<String> = Vec::new();
                let mut i: usize = 0;
                while i < types.len()
                    invariant
                        i <= types@.len(),
                        m@.len() == i,
                        forall|k: int| 0 <= k < i ==> m@[k]@ == primitive_ts(types@[k]@),
                    decreases types.len() - i,
                {
                    m.push(Self::map_primitive_type(types[i].as_str()));
                    i = i + 1;
                }
                assert(texts(m@) =~= texts(types@).map_values(|t: Seq<char>| primitive_ts(t)));
                join(m.as_slice(), " | ")
            },
        }
    }

    /// One import of all dependencies from `./types`; none when there are none.
    pub fn generate_imports(&self, dependencies: &[String]) -> (r: Vec<String>)
        ensures
            dependencies@.len() == 0 ==> r@.len() == 0,
            dependencies@.len() > 0 ==> texts(r@) == seq![
                "import { "@ + joined(texts(dependencies@), ", "@) + " } from './types';"@,
            ],
    {
        let mut r: Vec<String> = Vec::new();
        if dependencies.len() == 0 {
            return r;
        }
        let mut line = "import { ".to_owned();
        line.append(join(dependencies, ", ").as_str());
        line.append(" } from './types';");
        push_line(&mut r, line);
        r
    }

    /// `name` formatted for its context: PascalCase for types, UPPERCASE for
    /// constants, lowerCamelCase otherwise.
    pub fn format_identifier(&self, name: &str, context: IdentifierContext) -> (r: String)
        ensures
            r@ == identifier_for(name@, context),
    {
        match context {
            IdentifierContext::TypeName => to_pascal_case(name),
            IdentifierContext::FieldName => to_lower_camel_case(name),
            IdentifierContext::FunctionName => to_lower_camel_case(name),
            IdentifierContext::ConstantName => uppercase(name),
            IdentifierContext::VariableName => to_lower_camel_case(name),
        }
    }

    /// The documentation comment lines of `doc`.
    pub fn generate_doc_comment(&self, doc: &Documentation) -> (r: Vec<String>)
        ensures
            texts(r@) == doc_comment_lines(*doc),
    {
        let mut lines: Vec<String> = Vec::new();
        push_line(&mut lines, "/**".to_owned());
        let ghost a = texts(lines@);
        if doc.short.unicode_len() > 0 {
            let mut l = " * ".to_owned();
            l.append(doc.short.as_str());
            push_line(&mut lines, l);
        }
        let ghost b = texts(lines@);
        if doc.definition.unicode_len() > 0 && !str_eq(doc.definition.as_str(), doc.short.as_str()) {
            push_line(&mut lines, " *".to_owned());
            let w = Self::wrap_text(doc.definition.as_str(), 80);
            push_prefixed(&mut lines, &w, " * ");
        }
        let ghost c = texts(lines@);
        match &doc.comments {
            Some(cm) => {
                push_line(&mut lines, " *".to_owned());
                let w = Self::wrap_text(cm.as_str(), 80);
                push_prefixed(&mut lines, &w, " * ");
            },
            None => {},
        }
        let ghost d = texts(lines@);
        match &doc.url {
            Some(u) => {
                push_line(&mut lines, " *".to_owned());
                let mut l = " * @see ".to_owned();
                l.append(u.as_str());
                push_line(&mut lines, l);
            },
            None => {},
        }
        push_line(&mut lines, " */".to_owned());
        proof {
            assert(a =~= seq!["/**"@]);
        }
        assert(texts(lines@) =~= doc_comment_lines(*doc));
        lines
    }

    /// Appends the documentation comment of `doc`, if any, to `output`.
    fn append_doc(&self, output: &mut String, doc: Option<&Documentation>)
        ensures
            final(output)@ == old(output)@ + doc_text(doc),
    {
        match doc {
            Some(d) => {
                let lines = self.generate_doc_comment(d);
                let ghost ls = texts(lines@);
                let mut i: usize = 0;
                while i < lines.len()
                    invariant
                        i <= lines@.len(),
                        ls == texts(lines@),
                        output@ == old(output)@ + lines_text(ls.subrange(0, i as int)),
                    decreases lines.len() - i,
                {
                    assert(ls.subrange(0, i + 1).drop_last() =~= ls.subrange(0, i as int));
                    output.append(lines[i].as_str());
                    output.append("\n");
                    i = i + 1;
                }
                assert(ls.subrange(0, lines@.len() as int) =~= ls);
            },
            None => {
                assert(old(output)@ + doc_text(doc) =~= old(output)@);
            },
        }
    }

    /// An interface declaration with its members and optional documentation.
    pub fn generate_interface(
        &self,
        name: &str,
        extends: Option<&str>,
        properties: &Vec<(String, String, bool)>,
        doc: Option<&Documentation>,
    ) -> (r: String)
        ensures
            r@ == interface_text(
                name@,
                match extends {
                    Some(b) => Some(b@),
                    None => None,
                },
                properties@,
                doc,
            ),
    {
        let mut output = String::new();
        self.append_doc(&mut output, doc);
        output.append("export interface ");
        output.append(name);
        match extends {
            Some(base) => {
                output.append(" extends ");
                output.append(base);
            },
            None => {},
        }
        output.append(" {\n");
        let ghost head = output@;
        let mut i: usize = 0;
        while i < properties.len()
            invariant
                i <= properties@.len(),
                output@ == head + members_text(properties@.subrange(0, i as int)),
            decreases properties.len() - i,
        {
            assert(properties@.subrange(0, i + 1).drop_last() =~= properties@.subrange(0, i as int));
            let p = &properties[i];
            output.append("  ");
            output.append(p.0.as_str());
            if p.2 {
                output.append("?");
            }
            output.append(": ");
            output.append(p.1.as_str());
            output.append(";\n");
            i = i + 1;
        }
        assert(properties@.subrange(0, properties@.len() as int) =~= properties@);
        output.append("}\n");
        output
    }

    /// A type alias declaration with optional documentation.
    pub fn generate_type_alias(&self, name: &str, type_def: &str, doc: Option<&Documentation>) -> (r: String)
        ensures
            r@ == type_alias_text(name@, type_def@, doc),
    {
        let mut output = String::new();
        self.append_doc(&mut output, doc);
        output.append("export type ");
        output.append(name);
        output.append(" = ");
        output.append(type_def);
        output.append(";\n");
        output
    }
}

impl LanguageBackend for TypeScriptBackend {
    fn map_type(&self, property_type: &PropertyType) -> String {
        TypeScriptBackend::map_type(self, property_type)
    }

    fn generate_imports(&self, dependencies: &[String]) -> Vec<String> {
        TypeScriptBackend::generate_imports(self, dependencies)
    }

    fn format_identifier(&self, name: &str, context: IdentifierContext) -> String {
        TypeScriptBackend::format_identifier(self, name, context)
    }

    fn generate_doc_comment(&self, doc: &Documentation) -> Vec<String> {
        TypeScriptBackend::generate_doc_comment(self, doc)
    }

    fn file_extension(&self) -> &str {
        "ts"
    }

    fn format_code(&self, code: &str) -> Result<String, Error> {
        Ok(code.to_owned())
    }
}

} // verus!
