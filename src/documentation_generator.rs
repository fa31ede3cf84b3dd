//! JSDoc comment lines for types, choice elements, validators and helpers.

use vstd::prelude::*;
use crate::backend::{prefixed, push_line, push_prefixed, texts};
use crate::casing::{pascal_case, to_pascal_case};
use crate::ir::{CardinalityRange, Documentation, Example, Property};
use crate::text::{byte_len, decimal, decimal_text, split_words, str_eq, utf8_len, words};

verus! {

/// Lines so far and the line being filled when wrapping `ws` below
/// `max_width` bytes.
pub open spec fn doc_wrap_state(ws: Seq<Seq<char>>, max_width: int) -> (Seq<Seq<char>>, Seq<char>)
    decreases ws.len(),
{
    if ws.len() == 0 {
        (Seq::empty(), Seq::empty())
    } else {
        let (lines, cur) = doc_wrap_state(ws.drop_last(), max_width);
        let w = ws.last();
        if cur.len() == 0 {
            (lines, w)
        } else if utf8_len(cur) + utf8_len(w) < max_width {
            (lines, cur + " "@ + w)
        } else {
            (lines.push(cur), w)
        }
    }
}

/// The words of `text` in lines below `max_width` bytes, a longer word
/// standing alone; one empty line for a text without words.
pub open spec fn doc_wrapped(text: Seq<char>, max_width: int) -> Seq<Seq<char>> {
    let (lines, cur) = doc_wrap_state(words(text), max_width);
    let ls = if cur.len() > 0 {
        lines.push(cur)
    } else {
        lines
    };
    if ls.len() == 0 {
        seq![Seq::empty()]
    } else {
        ls
    }
}

/// Each line wrapped, the wrapped lines in order.
pub open spec fn notes_lines(notes: Seq<String>) -> Seq<Seq<char>>
    decreases notes.len(),
{
    if notes.len() == 0 {
        Seq::empty()
    } else {
        notes_lines(notes.drop_last()) + prefixed(doc_wrapped(notes.last()@, 90), " * - "@)
    }
}

/// The short description line of `d`, if it has one.
pub open spec fn short_section(d: Documentation) -> Seq<Seq<char>> {
    if d.short@.len() > 0 {
        seq![" * "@ + d.short@]
    } else {
        Seq::empty()
    }
}

/// The definition of `d`, wrapped, when it says more than the short text.
pub open spec fn definition_section(d: Documentation) -> Seq<Seq<char>> {
    if d.definition@.len() > 0 && d.definition@ != d.short@ {
        seq![" *"@] + prefixed(doc_wrapped(d.definition@, 90), " * "@)
    } else {
        Seq::empty()
    }
}

/// The comments of `d`, wrapped.
pub open spec fn comments_section(d: Documentation) -> Seq<Seq<char>> {
    match d.comments {
        Some(c) => seq![" *"@] + prefixed(doc_wrapped(c@, 90), " * "@),
        None => Seq::empty(),
    }
}

/// The requirements of `d`, wrapped under a heading.
pub open spec fn requirements_section(d: Documentation) -> Seq<Seq<char>> {
    match d.requirements {
        Some(r) => seq![" *"@, " * **Requirements:**"@] + prefixed(doc_wrapped(r@, 90), " * "@),
        None => Seq::empty(),
    }
}

/// The usage notes of `d`, each wrapped, under a heading.
pub open spec fn notes_section(d: Documentation) -> Seq<Seq<char>> {
    if d.usage_notes@.len() > 0 {
        seq![" *"@, " * **Usage Notes:**"@] + notes_lines(d.usage_notes@)
    } else {
        Seq::empty()
    }
}

/// The link to the specification of `d`.
pub open spec fn url_section(d: Documentation) -> Seq<Seq<char>> {
    match d.url {
        Some(u) => seq![" *"@, " * @see {@link "@ + u@ + " | FHIR Specification}"@],
        None => Seq::empty(),
    }
}

/// The JSDoc lines of a type's documentation.
pub open spec fn type_doc_lines(d: Documentation) -> Seq<Seq<char>> {
    seq!["/**"@] + short_section(d) + definition_section(d) + comments_section(d)
        + requirements_section(d) + notes_section(d) + url_section(d) + seq![" */"@]
}

/// The cardinality of a property in words.
pub open spec fn cardinality_text(c: CardinalityRange) -> Seq<char> {
    match (c.min, c.max) {
        (0, Some(1)) => "0..1 (optional)"@,
        (0, None) => "0..* (optional, array)"@,
        (0, Some(m)) => "0.."@ + decimal(m as nat) + " (optional, max "@ + decimal(m as nat) + " items)"@,
        (1, Some(1)) => "1..1 (required)"@,
        (1, None) => "1..* (required, array)"@,
        (1, Some(m)) => "1.."@ + decimal(m as nat) + " (required, max "@ + decimal(m as nat) + " items)"@,
        (n, None) => decimal(n as nat) + "..* (array)"@,
        (n, Some(m)) => decimal(n as nat) + ".."@ + decimal(m as nat),
    }
}

/// The lines that list the properties of a choice element.
pub open spec fn choice_option_lines(base_name: Seq<char>, types: Seq<String>) -> Seq<Seq<char>> {
    types.map_values(|t: String| " * - "@ + base_name + pascal_case(t@))
}

/// The JSDoc lines of a choice element.
pub open spec fn choice_doc_lines(base_name: Seq<char>, types: Seq<String>) -> Seq<Seq<char>> {
    seq![
        "/**"@,
        " * Choice element: "@ + base_name,
        " *"@,
        " * This is a FHIR choice element represented as a discriminated union."@,
        " * Only one of the following properties should be present:"@,
    ] + choice_option_lines(base_name, types) + seq![" */"@]
}

/// The JSDoc lines of the validator of resource `name`.
pub open spec fn validation_doc_lines(name: Seq<char>) -> Seq<Seq<char>> {
    seq![
        "/**"@,
        " * Validate a "@ + name + " resource"@,
        " *"@,
        " * Performs runtime validation checking:"@,
        " * - Required fields are present"@,
        " * - Cardinality constraints are met"@,
        " * - Resource type is correct"@,
        " *"@,
        " * @param resource - The "@ + name + " resource to validate"@,
        " * @returns {ValidationResult} Validation result with any errors or warnings"@,
        " */"@,
    ]
}

/// The lines that describe the parameters of a helper.
pub open spec fn param_lines(params: Seq<(&str, &str)>) -> Seq<Seq<char>> {
    params.map_values(|p: (&str, &str)| " * @param "@ + p.0@ + " - "@ + p.1@)
}

/// The JSDoc lines of a helper function.
pub open spec fn helper_doc_lines(description: Seq<char>, params: Seq<(&str, &str)>, return_doc: Seq<char>) -> Seq<Seq<char>> {
    seq!["/**"@, " * "@ + description, " *"@] + param_lines(params) + seq![
        " * @returns "@ + return_doc,
        " */"@,
    ]
}

/// The rendered lines of example `i`, none when they were not given.
pub open spec fn rendered_at(rendered: Seq<Vec<String>>, i: int) -> Seq<Seq<char>> {
    if 0 <= i < rendered.len() {
        texts(rendered[i]@)
    } else {
        Seq::empty()
    }
}

/// The lines of the first `n` examples, each shown from its rendered lines.
pub open spec fn example_lines(examples: Seq<Example>, rendered: Seq<Vec<String>>, n: int) -> Seq<Seq<char>>
    decreases n,
{
    if n <= 0 {
        Seq::empty()
    } else {
        example_lines(examples, rendered, n - 1) + seq![
            " * @example "@ + examples[n - 1].label@,
            " * ```typescript"@,
        ] + prefixed(rendered_at(rendered, n - 1), " * "@) + seq![" * ```"@]
    }
}

/// The short description line of a property, if it has one.
pub open spec fn prop_short_section(p: Property) -> Seq<Seq<char>> {
    if p.short_description@.len() > 0 {
        seq![" * "@ + p.short_description@]
    } else {
        Seq::empty()
    }
}

/// The definition of a property, wrapped, when it says more than the short text.
pub open spec fn prop_definition_section(p: Property) -> Seq<Seq<char>> {
    if p.definition@.len() > 0 && p.definition@ != p.short_description@ {
        seq![" *"@] + prefixed(doc_wrapped(p.definition@, 90), " * "@)
    } else {
        Seq::empty()
    }
}

/// The comments of a property, wrapped.
pub open spec fn prop_comments_section(p: Property) -> Seq<Seq<char>> {
    match p.comments {
        Some(c) => seq![" *"@] + prefixed(doc_wrapped(c@, 90), " * "@),
        None => Seq::empty(),
    }
}

/// The cardinality and flag lines of a property.
pub open spec fn prop_flags_section(p: Property) -> Seq<Seq<char>> {
    seq![" *"@, " * @cardinality "@ + cardinality_text(p.cardinality)] + (if p.is_modifier {
        seq![" * @modifier This element is a modifier element"@]
    } else {
        Seq::empty()
    }) + (if p.is_summary {
        seq![" * @summary This element is a summary element"@]
    } else {
        Seq::empty()
    })
}

/// The examples of a property.
pub open spec fn prop_examples_section(p: Property, rendered: Seq<Vec<String>>) -> Seq<Seq<char>> {
    if p.examples@.len() > 0 {
        seq![" *"@] + example_lines(p.examples@, rendered, p.examples@.len() as int)
    } else {
        Seq::empty()
    }
}

/// The link of a property into the specification.
pub open spec fn prop_link_section(p: Property, url: Option<&str>) -> Seq<Seq<char>> {
    match url {
        Some(u) => seq![" *"@, " * @see {@link "@ + u@ + "#"@ + p.name@ + " | FHIR Specification}"@],
        None => Seq::empty(),
    }
}

/// The JSDoc lines of a property.
pub open spec fn property_doc_lines(p: Property, url: Option<&str>, rendered: Seq<Vec<String>>) -> Seq<Seq<char>> {
    seq!["/**"@] + prop_short_section(p) + prop_definition_section(p) + prop_comments_section(p)
        + prop_flags_section(p) + prop_examples_section(p, rendered) + prop_link_section(p, url)
        + seq![" */"@]
}

/// Generator of JSDoc comments.
pub struct DocumentationGenerator;

impl DocumentationGenerator {
    /// The JSDoc lines of a type's documentation.
    pub fn generate_type_doc(doc: &Documentation) -> (r: Vec<String>)
        ensures
            texts(r@) == type_doc_lines(*doc),
    {
        let mut lines: Vec<String> = Vec::new();
        push_line(&mut lines, "/**".to_owned());
        assert(texts(lines@) =~= seq!["/**"@]);
        if doc.short.unicode_len() > 0 {
            let mut l = " * ".to_owned();
            l.append(doc.short.as_str());
            push_line(&mut lines, l);
        } else {
            assert(texts(lines@) + short_section(*doc) =~= texts(lines@));
        }
        if doc.definition.unicode_len() > 0 && !str_eq(doc.definition.as_str(), doc.short.as_str()) {
            Self::push_wrapped_section(&mut lines, doc.definition.as_str());
        } else {
            assert(texts(lines@) + definition_section(*doc) =~= texts(lines@));
        }
        match &doc.comments {
            Some(c) => Self::push_wrapped_section(&mut lines, c.as_str()),
            None => {
                assert(texts(lines@) + comments_section(*doc) =~= texts(lines@));
            },
        }
        match &doc.requirements {
            Some(req) => {
                push_line(&mut lines, " *".to_owned());
                push_line(&mut lines, " * **Requirements:**".to_owned());
                let w = Self::wrap_text(req.as_str(), 90);
                let ghost before = texts(lines@);
                push_prefixed(&mut lines, &w, " * ");
                assert(texts(lines@) =~= before + prefixed(doc_wrapped(req@, 90), " * "@));
            },
            None => {
                assert(texts(lines@) + requirements_section(*doc) =~= texts(lines@));
            },
        }
        Self::push_notes_section(&mut lines, doc);
        match &doc.url {
            Some(u) => {
                push_line(&mut lines, " *".to_owned());
                let mut l = " * @see {@link ".to_owned();
                l.append(u.as_str());
                l.append(" | FHIR Specification}");
                push_line(&mut lines, l);
            },
            None => {
                assert(texts(lines@) + url_section(*doc) =~= texts(lines@));
            },
        }
        push_line(&mut lines, " */".to_owned());
        lines
    }

    /// Appends a blank comment line and `text` wrapped, each line prefixed.
    fn push_wrapped_section(lines: &mut Vec<String>, text: &str)
        ensures
            texts(final(lines)@) == texts(old(lines)@) + (seq![" *"@] + prefixed(doc_wrapped(text@, 90), " * "@)),
    {
        push_line(lines, " *".to_owned());
        let w = Self::wrap_text(text, 90);
        push_prefixed(lines, &w, " * ");
        assert(texts(lines@) =~= texts(old(lines)@) + (seq![" *"@] + prefixed(doc_wrapped(text@, 90), " * "@)));
    }

    /// Appends the usage notes section of `doc`.
    fn push_notes_section(lines: &mut Vec<String>, doc: &Documentation)
        ensures
            texts(final(lines)@) == texts(old(lines)@) + notes_section(*doc),
    {
        if doc.usage_notes.len() > 0 {
            push_line(lines, " *".to_owned());
            push_line(lines, " * **Usage Notes:**".to_owned());
            let ghost head = texts(lines@);
            let mut i: usize = 0;
            while i < doc.usage_notes.len()
                invariant
                    i <= doc.usage_notes@.len(),
                    texts(lines@) == head + notes_lines(doc.usage_notes@.subrange(0, i as int)),
                decreases doc.usage_notes.len() - i,
            {
                assert(doc.usage_notes@.subrange(0, i + 1).drop_last() =~= doc.usage_notes@.subrange(0, i as int));
                let w = Self::wrap_text(doc.usage_notes[i].as_str(), 90);
                let ghost before = texts(lines@);
                push_prefixed(lines, &w, " * - ");
                assert(texts(lines@) =~= head + notes_lines(doc.usage_notes@.subrange(0, i + 1)));
                i = i + 1;
            }
            assert(doc.usage_notes@.subrange(0, doc.usage_notes@.len() as int) =~= doc.usage_notes@);
            assert(texts(lines@) =~= texts(old(lines)@) + notes_section(*doc));
        } else {
            assert(texts(lines@) =~= texts(old(lines)@) + notes_section(*doc));
        }
    }

    /// The JSDoc lines of a property: descriptions, cardinality, flags,
    /// examples and a link into the specification. `rendered[i]` holds the
    /// lines of example `i` as rendered JSON.
    pub fn generate_property_doc(
        property: &Property,
        resource_url: Option<&str>,
        rendered: &Vec<Vec<String>>,
    ) -> (r: Vec<String>)
        ensures
            texts(r@) == property_doc_lines(*property, resource_url, rendered@),
    {
        let mut lines: Vec<String> = Vec::new();
        push_line(&mut lines, "/**".to_owned());
        assert(texts(lines@) =~= seq!["/**"@]);
        if property.short_description.unicode_len() > 0 {
            let mut l = " * ".to_owned();
            l.append(property.short_description.as_str());
            push_line(&mut lines, l);
        } else {
            assert(texts(lines@) + prop_short_section(*property) =~= texts(lines@));
        }
        if property.definition.unicode_len() > 0
            && !str_eq(property.definition.as_str(), property.short_description.as_str()) {
            Self::push_wrapped_section(&mut lines, property.definition.as_str());
        } else {
            assert(texts(lines@) + prop_definition_section(*property) =~= texts(lines@));
        }
        match &property.comments {
            Some(c) => Self::push_wrapped_section(&mut lines, c.as_str()),
            None => {
                assert(texts(lines@) + prop_comments_section(*property) =~= texts(lines@));
            },
        }
        Self::push_flags(&mut lines, property);
        Self::push_examples(&mut lines, property, rendered);
        match resource_url {
            Some(u) => {
                push_line(&mut lines, " *".to_owned());
                let mut l = " * @see {@link ".to_owned();
                l.append(u);
                l.append("#");
                l.append(property.name.as_str());
                l.append(" | FHIR Specification}");
                let ghost before = texts(lines@);
                push_line(&mut lines, l);
            },
            None => {
                assert(texts(lines@) + prop_link_section(*property, resource_url) =~= texts(lines@));
            },
        }
        push_line(&mut lines, " */".to_owned());
        lines
    }

    /// Appends the cardinality and flag lines of a property.
    fn push_flags(lines: &mut Vec<String>, property: &Property)
        ensures
            texts(final(lines)@) == texts(old(lines)@) + prop_flags_section(*property),
    {
        push_line(lines, " *".to_owned());
        let mut l = " * @cardinality ".to_owned();
        l.append(Self::describe_cardinality(property).as_str());
        push_line(lines, l);
        if property.is_modifier {
            push_line(lines, " * @modifier This element is a modifier element".to_owned());
        }
        if property.is_summary {
            push_line(lines, " * @summary This element is a summary element".to_owned());
        }
        assert(texts(lines@) =~= texts(old(lines)@) + prop_flags_section(*property));
    }

    /// Appends the examples of a property.
    fn push_examples(lines: &mut Vec<String>, property: &Property, rendered: &Vec<Vec<String>>)
        ensures
            texts(final(lines)@) == texts(old(lines)@) + prop_examples_section(*property, rendered@),
    {
        if property.examples.len() == 0 {
            assert(texts(lines@) =~= texts(old(lines)@) + prop_examples_section(*property, rendered@));
            return;
        }
        push_line(lines, " *".to_owned());
        let ghost head = texts(lines@);
        let mut i: usize = 0;
        assert(texts(lines@) =~= head + example_lines(property.examples@, rendered@, 0));
        while i < property.examples.len()
            invariant
                i <= property.examples@.len(),
                texts(lines@) == head + example_lines(property.examples@, rendered@, i as int),
            decreases property.examples.len() - i,
        {
            let ghost before = texts(lines@);
            let mut l = " * @example ".to_owned();
            l.append(property.examples[i].label.as_str());
            push_line(lines, l);
            push_line(lines, " * ```typescript".to_owned());
            if i < rendered.len() {
                push_prefixed(lines, &rendered[i], " * ");
            } else {
                assert(texts(lines@) =~= texts(lines@) + prefixed(rendered_at(rendered@, i as int), " * "@));
            }
            push_line(lines, " * ```".to_owned());
            assert(texts(lines@) =~= before + (seq![" * @example "@ + property.examples@[i as int].label@, " * ```typescript"@]
                + prefixed(rendered_at(rendered@, i as int), " * "@) + seq![" * ```"@]));
            assert(texts(lines@) =~= head + example_lines(property.examples@, rendered@, i + 1));
            i = i + 1;
        }
        assert(texts(lines@) =~= texts(old(lines)@) + prop_examples_section(*property, rendered@));
    }

    /// A one-line JSDoc comment.
    pub fn generate_simple_doc(description: &str) -> (r: Vec<String>)
        ensures
            texts(r@) == seq!["/**"@, " * "@ + description@, " */"@],
    {
        let mut lines: Vec<String> = Vec::new();
        push_line(&mut lines, "/**".to_owned());
        let mut l = " * ".to_owned();
        l.append(description);
        push_line(&mut lines, l);
        push_line(&mut lines, " */".to_owned());
        assert(texts(lines@) =~= seq!["/**"@, " * "@ + description@, " */"@]);
        lines
    }

    /// Wraps the words of `text` into lines below `max_width` bytes.
    pub fn wrap_text(text: &str, max_width: usize) -> (r: Vec<String>)
        ensures
            texts(r@) == doc_wrapped(text@, max_width as int),
    {
        let ws = split_words(text);
        let ghost wv = texts(ws@);
        assert(wv == words(text@));
        let mut lines: Vec<String> = Vec::new();
        let mut cur = String::new();
        let mut i: usize = 0;
        while i < ws.len()
            invariant
                i <= ws@.len(),
                wv == texts(ws@),
                (texts(lines@), cur@) == doc_wrap_state(wv.subrange(0, i as int), max_width as int),
            decreases ws.len() - i,
        {
            assert(wv.subrange(0, i + 1).drop_last() =~= wv.subrange(0, i as int));
            let w = ws[i].as_str();
            if cur.unicode_len() == 0 {
                cur = w.to_owned();
            } else if byte_len(cur.as_str()) + byte_len(w) < max_width as u128 {
                cur.append(" ");
                cur.append(w);
            } else {
                let ghost before = texts(lines@);
                lines.push(cur);
                assert(texts(lines@) =~= before.push(doc_wrap_state(wv.subrange(0, i as int), max_width as int).1));
                cur = w.to_owned();
            }
            i = i + 1;
        }
        assert(wv.subrange(0, ws@.len() as int) =~= wv);
        if cur.unicode_len() > 0 {
            let ghost before = texts(lines@);
            lines.push(cur);
            assert(texts(lines@) =~= before.push(doc_wrap_state(wv, max_width as int).1));
        }
        if lines.len() == 0 {
            push_line(&mut lines, String::new());
            assert(texts(lines@) =~= seq![Seq::<char>::empty()]);
        }
        lines
    }

    /// The cardinality of a property in words.
    pub fn describe_cardinality(property: &Property) -> (r: String)
        ensures
            r@ == cardinality_text(property.cardinality),
    {
        let min = property.cardinality.min;
        match property.cardinality.max {
            Some(max) => {
                if min == 0 && max == 1 {
                    "0..1 (optional)".to_owned()
                } else if min == 1 && max == 1 {
                    "1..1 (required)".to_owned()
                } else if min == 0 {
                    let mut r = "0..".to_owned();
                    r.append(decimal_text(max).as_str());
                    r.append(" (optional, max ");
                    r.append(decimal_text(max).as_str());
                    r.append(" items)");
                    r
                } else if min == 1 {
                    let mut r = "1..".to_owned();
                    r.append(decimal_text(max).as_str());
                    r.append(" (required, max ");
                    r.append(decimal_text(max).as_str());
                    r.append(" items)");
                    r
                } else {
                    let mut r = decimal_text(min);
                    r.append("..");
                    r.append(decimal_text(max).as_str());
                    r
                }
            },
            None => {
                if min == 0 {
                    "0..* (optional, array)".to_owned()
                } else if min == 1 {
                    "1..* (required, array)".to_owned()
                } else {
                    let mut r = decimal_text(min);
                    r.append("..* (array)");
                    r
                }
            },
        }
    }

    /// The JSDoc lines of a choice element and the property of each type.
    pub fn generate_choice_doc(base_name: &str, types: &[String]) -> (r: Vec<String>)
        ensures
            texts(r@) == choice_doc_lines(base_name@, types@),
    {
        let mut lines: Vec<String> = Vec::new();
        push_line(&mut lines, "/**".to_owned());
        let mut l = " * Choice element: ".to_owned();
        l.append(base_name);
        push_line(&mut lines, l);
        push_line(&mut lines, " *".to_owned());
        push_line(&mut lines, " * This is a FHIR choice element represented as a discriminated union.".to_owned());
        push_line(&mut lines, " * Only one of the following properties should be present:".to_owned());
        let ghost head = texts(lines@);
        let mut i: usize = 0;
        while i < types.len()
            invariant
                i <= types@.len(),
                texts(lines@) == head + choice_option_lines(base_name@, types@.subrange(0, i as int)),
            decreases types.len() - i,
        {
            let mut l = " * - ".to_owned();
            l.append(base_name);
            l.append(to_pascal_case(types[i].as_str()).as_str());
            let ghost before = texts(lines@);
            push_line(&mut lines, l);
            assert(choice_option_lines(base_name@, types@.subrange(0, i + 1)) =~= choice_option_lines(
                base_name@,
                types@.subrange(0, i as int),
            ).push(" * - "@ + base_name@ + pascal_case(types@[i as int]@)));
            assert(texts(lines@) =~= head + choice_option_lines(base_name@, types@.subrange(0, i + 1)));
            i = i + 1;
        }
        assert(types@.subrange(0, types@.len() as int) =~= types@);
        push_line(&mut lines, " */".to_owned());
        assert(texts(lines@) =~= choice_doc_lines(base_name@, types@));
        lines
    }

    /// The JSDoc lines of the validator of a resource.
    pub fn generate_validation_doc(resource_name: &str) -> (r: Vec<String>)
        ensures
            texts(r@) == validation_doc_lines(resource_name@),
    {
        let mut lines: Vec<String> = Vec::new();
        push_line(&mut lines, "/**".to_owned());
        let mut l = " * Validate a ".to_owned();
        l.append(resource_name);
        l.append(" resource");
        push_line(&mut lines, l);
        push_line(&mut lines, " *".to_owned());
        push_line(&mut lines, " * Performs runtime validation checking:".to_owned());
        push_line(&mut lines, " * - Required fields are present".to_owned());
        push_line(&mut lines, " * - Cardinality constraints are met".to_owned());
        push_line(&mut lines, " * - Resource type is correct".to_owned());
        push_line(&mut lines, " *".to_owned());
        let mut p = " * @param resource - The ".to_owned();
        p.append(resource_name);
        p.append(" resource to validate");
        push_line(&mut lines, p);
        push_line(&mut lines, " * @returns {ValidationResult} Validation result with any errors or warnings".to_owned());
        push_line(&mut lines, " */".to_owned());
        assert(texts(lines@) =~= validation_doc_lines(resource_name@));
        lines
    }

    /// The JSDoc lines of a helper function.
    pub fn generate_helper_doc(description: &str, params: &[(&str, &str)], return_doc: &str) -> (r: Vec<String>)
        ensures
            texts(r@) == helper_doc_lines(description@, params@, return_doc@),
    {
        let mut lines: Vec<String> = Vec::new();
        push_line(&mut lines, "/**".to_owned());
        let mut l = " * ".to_owned();
        l.append(description);
        push_line(&mut lines, l);
        push_line(&mut lines, " *".to_owned());
        let ghost head = texts(lines@);
        let mut i: usize = 0;
        while i < params.len()
            invariant
                i <= params@.len(),
                texts(lines@) == head + param_lines(params@.subrange(0, i as int)),
            decreases params.len() - i,
        {
            let (name, desc) = params[i];
            let mut l = " * @param ".to_owned();
            l.append(name);
            l.append(" - ");
            l.append(desc);
            push_line(&mut lines, l);
            assert(param_lines(params@.subrange(0, i + 1)) =~= param_lines(params@.subrange(0, i as int)).push(
                " * @param "@ + name@ + " - "@ + desc@,
            ));
            assert(texts(lines@) =~= head + param_lines(params@.subrange(0, i + 1)));
            i = i + 1;
        }
        assert(params@.subrange(0, params@.len() as int) =~= params@);
        let mut l = " * @returns ".to_owned();
        l.append(return_doc);
        push_line(&mut lines, l);
        push_line(&mut lines, " */".to_owned());
        assert(texts(lines@) =~= helper_doc_lines(description@, params@, return_doc@));
        lines
    }
}

} // verus!
