//! FHIR StructureDefinition parser: schema documents to parsed structures,
//! and parsed structures to IR types.

use vstd::prelude::*;
use crate::error::Error;
use crate::ir::{
    CardinalityRange, DataType, Documentation, Property, PropertyType, ResourceType, TypeMap,
};
use crate::json::{array_field, field, str_field, strings_in, u64_field, bool_field, collect_strings, Json};
use crate::text::{
    after_last, before_dot, ends_with_marker, has_choice_marker, last_segment,
    parse_u32, prefix_before_dot, str_eq, strip_root, strip_root_spec, trim_choice_marker,
    trim_marker, u32_text,
};

verus! {

/// The text of each string, in order.
pub open spec fn strs(v: Seq<String>) -> Seq<Seq<char>> {
    v.map_values(|s: String| s@)
}

/// The text of an optional string.
pub open spec fn opt_str(o: Option<String>) -> Option<Seq<char>> {
    match o {
        Some(s) => Some(s@),
        None => None,
    }
}

/// The values that are present, in order.
pub open spec fn somes<T>(s: Seq<Option<T>>) -> Seq<T>
    decreases s.len(),
{
    if s.len() == 0 {
        Seq::empty()
    } else {
        let r = somes(s.drop_last());
        match s.last() {
            Some(x) => r.push(x),
            None => r,
        }
    }
}

/// All values, when every one is present.
pub open spec fn all_some<T>(s: Seq<Option<T>>) -> Option<Seq<T>> {
    if forall|i: int| 0 <= i < s.len() ==> s[i] is Some {
        Some(somes(s))
    } else {
        None
    }
}

/// Structure kind.
#[derive(Debug, Clone, Copy, PartialEq, Eq, Structural)]
pub enum StructureKind {
    Resource,
    ComplexType,
    PrimitiveType,
    LogicalModel,
}

/// Cardinality max value.
#[derive(Debug, Clone, Copy, PartialEq, Eq, Structural)]
pub enum Cardinality {
    Finite(u32),
    Unbounded,
}

/// Element type information.
#[derive(Debug)]
pub struct ElementType {
    pub code: String,
    pub target_profiles: Vec<String>,
}

pub struct ElementTypeView {
    pub code: Seq<char>,
    pub target_profiles: Seq<Seq<char>>,
}

impl View for ElementType {
    type V = ElementTypeView;

    open spec fn view(&self) -> ElementTypeView {
        ElementTypeView { code: self.code@, target_profiles: strs(self.target_profiles@) }
    }
}

/// Value set binding as written in the schema.
#[derive(Debug)]
pub struct Binding {
    pub strength: String,
    pub value_set: Option<String>,
    pub description: Option<String>,
}

pub struct BindingView {
    pub strength: Seq<char>,
    pub value_set: Option<Seq<char>>,
    pub description: Option<Seq<char>>,
}

impl View for Binding {
    type V = BindingView;

    open spec fn view(&self) -> BindingView {
        BindingView {
            strength: self.strength@,
            value_set: opt_str(self.value_set),
            description: opt_str(self.description),
        }
    }
}

/// Constraint/invariant as written in the schema.
#[derive(Debug)]
pub struct Constraint {
    pub key: String,
    pub severity: String,
    pub human: String,
    pub expression: Option<String>,
    pub xpath: Option<String>,
}

pub struct ConstraintView {
    pub key: Seq<char>,
    pub severity: Seq<char>,
    pub human: Seq<char>,
    pub expression: Option<Seq<char>>,
    pub xpath: Option<Seq<char>>,
}

impl View for Constraint {
    type V = ConstraintView;

    open spec fn view(&self) -> ConstraintView {
        ConstraintView {
            key: self.key@,
            severity: self.severity@,
            human: self.human@,
            expression: opt_str(self.expression),
            xpath: opt_str(self.xpath),
        }
    }
}

/// Element definition from a StructureDefinition.
#[derive(Debug)]
pub struct ElementDefinition {
    pub path: String,
    pub short: Option<String>,
    pub definition: Option<String>,
    pub min: u32,
    pub max: Cardinality,
    pub types: Vec<ElementType>,
    pub binding: Option<Binding>,
    pub constraints: Vec<Constraint>,
}

pub struct ElementView {
    pub path: Seq<char>,
    pub short: Option<Seq<char>>,
    pub definition: Option<Seq<char>>,
    pub min: u32,
    pub max: Cardinality,
    pub types: Seq<ElementTypeView>,
    pub binding: Option<BindingView>,
    pub constraints: Seq<ConstraintView>,
}

impl View for ElementDefinition {
    type V = ElementView;

    open spec fn view(&self) -> ElementView {
        ElementView {
            path: self.path@,
            short: opt_str(self.short),
            definition: opt_str(self.definition),
            min: self.min,
            max: self.max,
            types: self.types@.map_values(|t: ElementType| t@),
            binding: match self.binding {
                Some(b) => Some(b@),
                None => None,
            },
            constraints: self.constraints@.map_values(|c: Constraint| c@),
        }
    }
}

/// The target profiles of a type entry: one string, or the strings of an array.
pub open spec fn profiles_spec(j: Json) -> Seq<Seq<char>> {
    match field(j, "targetProfile"@) {
        Some(Json::Str(s)) => seq![s@],
        Some(Json::Array(v)) => strings_in(v@),
        _ => Seq::empty(),
    }
}

/// A type entry: its code (required) and, for `Reference`, its target profiles.
pub open spec fn element_type_spec(j: Json) -> Option<ElementTypeView> {
    match str_field(j, "code"@) {
        None => None,
        Some(code) => Some(
            ElementTypeView {
                code,
                target_profiles: if code == "Reference"@ {
                    profiles_spec(j)
                } else {
                    Seq::empty()
                },
            },
        ),
    }
}

/// A binding: its strength (required), value set and description.
pub open spec fn binding_spec(j: Json) -> Option<BindingView> {
    match str_field(j, "strength"@) {
        None => None,
        Some(strength) => Some(
            BindingView {
                strength,
                value_set: str_field(j, "valueSet"@),
                description: str_field(j, "description"@),
            },
        ),
    }
}

/// A constraint: key and human text required, severity `error` by default.
pub open spec fn constraint_spec(j: Json) -> Option<ConstraintView> {
    match (str_field(j, "key"@), str_field(j, "human"@)) {
        (Some(key), Some(human)) => Some(
            ConstraintView {
                key,
                severity: match str_field(j, "severity"@) {
                    Some(s) => s,
                    None => "error"@,
                },
                human,
                expression: str_field(j, "expression"@),
                xpath: str_field(j, "xpath"@),
            },
        ),
        _ => None,
    }
}

/// The well-formed type entries of an element; the others are left out.
pub open spec fn types_spec(j: Json) -> Seq<ElementTypeView> {
    match array_field(j, "type"@) {
        Some(v) => somes(v.map_values(|t: Json| element_type_spec(t))),
        None => Seq::empty(),
    }
}

/// The well-formed constraints of an element; the others are left out.
pub open spec fn constraints_spec(j: Json) -> Seq<ConstraintView> {
    match array_field(j, "constraint"@) {
        Some(v) => somes(v.map_values(|c: Json| constraint_spec(c))),
        None => Seq::empty(),
    }
}

/// The upper bound: `*` is unbounded, a number is finite, anything else 1.
pub open spec fn max_spec(j: Json) -> Cardinality {
    match str_field(j, "max"@) {
        None => Cardinality::Finite(1),
        Some(s) => if s == "*"@ {
            Cardinality::Unbounded
        } else {
            match u32_text(s) {
                Some(n) => Cardinality::Finite(n),
                None => Cardinality::Finite(1),
            }
        },
    }
}

/// An element: its path is required; the rest has defaults.
pub open spec fn element_spec(j: Json) -> Option<ElementView> {
    match str_field(j, "path"@) {
        None => None,
        Some(path) => Some(
            ElementView {
                path,
                short: str_field(j, "short"@),
                definition: str_field(j, "definition"@),
                min: match u64_field(j, "min"@) {
                    Some(n) => if n <= u32::MAX as u64 {
                        n as u32
                    } else {
                        u32::MAX
                    },
                    None => 0,
                },
                max: max_spec(j),
                types: types_spec(j),
                binding: match field(j, "binding"@) {
                    Some(b) => binding_spec(b),
                    None => None,
                },
                constraints: constraints_spec(j),
            },
        ),
    }
}

/// The member `key` as an owned string.
fn owned_str_member(j: &Json, key: &str) -> (r: Option<String>)
    ensures
        opt_str(r) == str_field(*j, key@),
{
    match j.str_member(key) {
        Some(s) => Some(s.to_owned()),
        None => None,
    }
}

proof fn lemma_somes_step<T>(s: Seq<Option<T>>, i: int)
    requires
        0 <= i < s.len(),
    ensures
        somes(s.subrange(0, i + 1)) == match s[i] {
            Some(x) => somes(s.subrange(0, i)).push(x),
            None => somes(s.subrange(0, i)),
        },
{
    assert(s.subrange(0, i + 1).drop_last() =~= s.subrange(0, i));
}

/// Parses one type entry.
fn parse_element_type(type_obj: &Json) -> (r: Option<ElementType>)
    ensures
        match r {
            Some(t) => element_type_spec(*type_obj) == Some(t@),
            None => element_type_spec(*type_obj).is_none(),
        },
{
    let code = match type_obj.str_member("code") {
        Some(c) => c,
        None => return None,
    };
    let target_profiles = if str_eq(code, "Reference") {
        match type_obj.get("targetProfile") {
            Some(Json::Str(s)) => {
                let mut v: Vec<String> = Vec::new();
                v.push(s.clone());
                assert(strs(v@) =~= seq![s@]);
                v
            },
            Some(Json::Array(a)) => collect_strings(a),
            _ => {
                let v: Vec<String> = Vec::new();
                assert(strs(v@) =~= Seq::<Seq<char>>::empty());
                v
            },
        }
    } else {
        let v: Vec<String> = Vec::new();
        assert(strs(v@) =~= Seq::<Seq<char>>::empty());
        v
    };
    let r = ElementType { code: code.to_owned(), target_profiles };
    assert(r@.target_profiles =~= element_type_spec(*type_obj).unwrap().target_profiles);
    Some(r)
}

/// Parses a value set binding.
fn parse_binding(binding: &Json) -> (r: Option<Binding>)
    ensures
        match r {
            Some(b) => binding_spec(*binding) == Some(b@),
            None => binding_spec(*binding).is_none(),
        },
{
    let strength = match binding.str_member("strength") {
        Some(s) => s.to_owned(),
        None => return None,
    };
    Some(
        Binding {
            strength,
            value_set: owned_str_member(binding, "valueSet"),
            description: owned_str_member(binding, "description"),
        },
    )
}

/// Parses a constraint.
fn parse_constraint(constraint: &Json) -> (r: Option<Constraint>)
    ensures
        match r {
            Some(c) => constraint_spec(*constraint) == Some(c@),
            None => constraint_spec(*constraint).is_none(),
        },
{
    let key = match constraint.str_member("key") {
        Some(s) => s.to_owned(),
        None => return None,
    };
    let severity = match constraint.str_member("severity") {
        Some(s) => s.to_owned(),
        None => {
            proof { reveal_strlit("error"); }
            "error".to_owned()
        },
    };
    let human = match constraint.str_member("human") {
        Some(s) => s.to_owned(),
        None => return None,
    };
    Some(
        Constraint {
            key,
            severity,
            human,
            expression: owned_str_member(constraint, "expression"),
            xpath: owned_str_member(constraint, "xpath"),
        },
    )
}

/// Parses the well-formed type entries of an element.
fn parse_types(elem: &Json) -> (r: Vec<ElementType>)
    ensures
        r@.map_values(|t: ElementType| t@) == types_spec(*elem),
{
    let mut r: Vec<ElementType> = Vec::new();
    match elem.array_member("type") {
        Some(arr) => {
            let ghost m = arr@.map_values(|t: Json| element_type_spec(t));
            let mut i: usize = 0;
            while i < arr.len()
                invariant
                    i <= arr@.len(),
                    m == arr@.map_values(|t: Json| element_type_spec(t)),
                    r@.map_values(|t: ElementType| t@) == somes(m.subrange(0, i as int)),
                decreases arr.len() - i,
            {
                proof { lemma_somes_step(m, i as int); }
                match parse_element_type(&arr[i]) {
                    Some(t) => {
                        r.push(t);
                        assert(r@.map_values(|t: ElementType| t@) =~= somes(m.subrange(0, i as int)).push(m[i as int].unwrap()));
                    },
                    None => {},
                }
                i = i + 1;
            }
            assert(m.subrange(0, arr@.len() as int) =~= m);
        },
        None => {
            assert(r@.map_values(|t: ElementType| t@) =~= Seq::<ElementTypeView>::empty());
        },
    }
    r
}

/// Parses the well-formed constraints of an element.
fn parse_constraints(elem: &Json) -> (r: Vec<Constraint>)
    ensures
        r@.map_values(|c: Constraint| c@) == constraints_spec(*elem),
{
    let mut r: Vec<Constraint> = Vec::new();
    match elem.array_member("constraint") {
        Some(arr) => {
            let ghost m = arr@.map_values(|c: Json| constraint_spec(c));
            let mut i: usize = 0;
            while i < arr.len()
                invariant
                    i <= arr@.len(),
                    m == arr@.map_values(|c: Json| constraint_spec(c)),
                    r@.map_values(|c: Constraint| c@) == somes(m.subrange(0, i as int)),
                decreases arr.len() - i,
            {
                proof { lemma_somes_step(m, i as int); }
                match parse_constraint(&arr[i]) {
                    Some(c) => {
                        r.push(c);
                        assert(r@.map_values(|c: Constraint| c@) =~= somes(m.subrange(0, i as int)).push(m[i as int].unwrap()));
                    },
                    None => {},
                }
                i = i + 1;
            }
            assert(m.subrange(0, arr@.len() as int) =~= m);
        },
        None => {
            assert(r@.map_values(|c: Constraint| c@) =~= Seq::<ConstraintView>::empty());
        },
    }
    r
}

/// Reads the upper bound of an element.
fn parse_max(elem: &Json) -> (r: Cardinality)
    ensures
        r == max_spec(*elem),
{
    match elem.str_member("max") {
        None => Cardinality::Finite(1),
        Some(s) => {
            if str_eq(s, "*") {
                Cardinality::Unbounded
            } else {
                match parse_u32(s) {
                    Some(n) => Cardinality::Finite(n),
                    None => Cardinality::Finite(1),
                }
            }
        },
    }
}

/// Parses one element definition; `None` when it has no path.
fn parse_element(elem: &Json) -> (r: Option<ElementDefinition>)
    ensures
        match r {
            Some(e) => element_spec(*elem) == Some(e@),
            None => element_spec(*elem).is_none(),
        },
{
    let path = match elem.str_member("path") {
        Some(p) => p.to_owned(),
        None => return None,
    };
    let min: u32 = match elem.u64_member("min") {
        Some(n) => if n <= u32::MAX as u64 {
            n as u32
        } else {
            u32::MAX
        },
        None => 0,
    };
    let binding = match elem.get("binding") {
        Some(b) => parse_binding(b),
        None => None,
    };
    let r = ElementDefinition {
        path,
        short: owned_str_member(elem, "short"),
        definition: owned_str_member(elem, "definition"),
        min,
        max: parse_max(elem),
        types: parse_types(elem),
        binding,
        constraints: parse_constraints(elem),
    };
    Some(r)
}

/// Parsed structure: the intermediate form before IR conversion.
#[derive(Debug)]
pub struct ParsedStructure {
    pub url: String,
    pub name: String,
    pub kind: StructureKind,
    pub base_definition: Option<String>,
    pub is_abstract: bool,
    pub elements: Vec<ElementDefinition>,
    pub differential: bool,
}

pub struct ParsedView {
    pub url: Seq<char>,
    pub name: Seq<char>,
    pub kind: StructureKind,
    pub base_definition: Option<Seq<char>>,
    pub is_abstract: bool,
    pub elements: Seq<ElementView>,
    pub differential: bool,
}

impl View for ParsedStructure {
    type V = ParsedView;

    open spec fn view(&self) -> ParsedView {
        ParsedView {
            url: self.url@,
            name: self.name@,
            kind: self.kind,
            base_definition: opt_str(self.base_definition),
            is_abstract: self.is_abstract,
            elements: self.elements@.map_values(|e: ElementDefinition| e@),
            differential: self.differential,
        }
    }
}

/// The element list of a snapshot or differential container.
pub open spec fn elements_spec(c: Json) -> Result<Seq<ElementView>, Seq<char>> {
    match array_field(c, "element"@) {
        None => Err("Missing element array"@),
        Some(es) => match all_some(es.map_values(|e: Json| element_spec(e))) {
            Some(v) => Ok(v),
            None => Err("Element missing path"@),
        },
    }
}

/// The structure kind that a `kind` text names.
pub open spec fn kind_spec(k: Seq<char>) -> Option<StructureKind> {
    if k == "resource"@ {
        Some(StructureKind::Resource)
    } else if k == "complex-type"@ {
        Some(StructureKind::ComplexType)
    } else if k == "primitive-type"@ {
        Some(StructureKind::PrimitiveType)
    } else if k == "logical"@ {
        Some(StructureKind::LogicalModel)
    } else {
        None
    }
}

/// The elements of a document and whether they came from the differential:
/// the snapshot when present, else the differential.
pub open spec fn document_elements_spec(j: Json) -> Result<(Seq<ElementView>, bool), Seq<char>> {
    match field(j, "snapshot"@) {
        Some(snap) => match elements_spec(snap) {
            Ok(es) => Ok((es, false)),
            Err(m) => Err(m),
        },
        None => match field(j, "differential"@) {
            Some(diff) => match elements_spec(diff) {
                Ok(es) => Ok((es, true)),
                Err(m) => Err(m),
            },
            None => Err("Missing both snapshot and differential"@),
        },
    }
}

/// An element's bounds are consistent: a finite maximum is at least the minimum.
pub open spec fn element_valid(e: ElementView) -> bool {
    match e.max {
        Cardinality::Finite(m) => e.min <= m,
        Cardinality::Unbounded => true,
    }
}

/// Every element's bounds are consistent.
pub open spec fn elements_valid(es: Seq<ElementView>) -> bool {
    forall|i: int| 0 <= i < es.len() ==> element_valid(#[trigger] es[i])
}

/// A StructureDefinition document parsed, or the message of the first check
/// that it fails.
pub open spec fn parse_spec(j: Json) -> Result<ParsedView, Seq<char>> {
    match str_field(j, "resourceType"@) {
        None => Err("Missing resourceType"@),
        Some(rt) => if rt != "StructureDefinition"@ {
            Err("Expected StructureDefinition, got "@ + rt)
        } else {
            match (str_field(j, "url"@), str_field(j, "name"@), str_field(j, "kind"@)) {
                (None, _, _) => Err("Missing url"@),
                (Some(_), None, _) => Err("Missing name"@),
                (Some(_), Some(_), None) => Err("Missing kind"@),
                (Some(url), Some(name), Some(k)) => match kind_spec(k) {
                    None => Err("Unknown kind: "@ + k),
                    Some(kind) => match document_elements_spec(j) {
                        Err(m) => Err(m),
                        Ok((elements, differential)) => if !elements_valid(elements) {
                            Err("Element min exceeds max"@)
                        } else {
                            Ok(
                                ParsedView {
                                    url,
                                    name,
                                    kind,
                                    base_definition: str_field(j, "baseDefinition"@),
                                    is_abstract: match bool_field(j, "abstract"@) {
                                        Some(b) => b,
                                        None => false,
                                    },
                                    elements,
                                    differential,
                                },
                            )
                        },
                    },
                },
            }
        },
    }
}

/// A parser error with message `m`.
fn parser_error(m: &str) -> (r: Error)
    ensures
        r is Parser && r->Parser_0@ == m@,
{
    Error::Parser(m.to_owned())
}

/// A parser error whose message is `a` followed by `b`.
pub(crate) fn parser_error2(a: &str, b: &str) -> (r: Error)
    ensures
        r is Parser && r->Parser_0@ == a@ + b@,
{
    let mut m = a.to_owned();
    m.append(b);
    Error::Parser(m)
}

/// Parses the element list of a snapshot or differential container.
fn parse_element_definitions(container: &Json) -> (r: Result<Vec<ElementDefinition>, Error>)
    ensures
        match r {
            Ok(v) => elements_spec(*container) == Ok::<Seq<ElementView>, Seq<char>>(
                v@.map_values(|e: ElementDefinition| e@),
            ),
            Err(e) => e is Parser && elements_spec(*container) == Err::<Seq<ElementView>, Seq<char>>(
                e->Parser_0@,
            ),
        },
{
    let arr = match container.array_member("element") {
        Some(a) => a,
        None => return Err(parser_error("Missing element array")),
    };
    let ghost m = arr@.map_values(|e: Json| element_spec(e));
    let mut r: Vec<ElementDefinition> = Vec::new();
    let mut i: usize = 0;
    while i < arr.len()
        invariant
            i <= arr@.len(),
            m == arr@.map_values(|e: Json| element_spec(e)),
            array_field(*container, "element"@) == Some(arr@),
            forall|j: int| 0 <= j < i ==> m[j] is Some,
            r@.map_values(|e: ElementDefinition| e@) == somes(m.subrange(0, i as int)),
        decreases arr.len() - i,
    {
        proof { lemma_somes_step(m, i as int); }
        match parse_element(&arr[i]) {
            Some(e) => {
                r.push(e);
                assert(r@.map_values(|e: ElementDefinition| e@) =~= somes(m.subrange(0, i as int)).push(m[i as int].unwrap()));
            },
            None => {
                assert(m[i as int] is None);
                assert(!(forall|j: int| 0 <= j < m.len() ==> m[j] is Some));
                return Err(parser_error("Element missing path"));
            },
        }
        i = i + 1;
    }
    assert(m.subrange(0, arr@.len() as int) =~= m);
    Ok(r)
}

/// Are the bounds of every element consistent?
fn cardinalities_valid(elements: &Vec<ElementDefinition>) -> (r: bool)
    ensures
        r == elements_valid(elements@.map_values(|e: ElementDefinition| e@)),
{
    let ghost es = elements@.map_values(|e: ElementDefinition| e@);
    let mut i: usize = 0;
    while i < elements.len()
        invariant
            i <= elements@.len(),
            es == elements@.map_values(|e: ElementDefinition| e@),
            forall|j: int| 0 <= j < i ==> element_valid(#[trigger] es[j]),
        decreases elements.len() - i,
    {
        let ok = match elements[i].max {
            Cardinality::Finite(m) => elements[i].min <= m,
            Cardinality::Unbounded => true,
        };
        if !ok {
            assert(!element_valid(es[i as int]));
            return false;
        }
        i = i + 1;
    }
    true
}

/// The structure kind that `kind` names.
fn kind_of(k: &str) -> (r: Option<StructureKind>)
    ensures
        r == kind_spec(k@),
{
    if str_eq(k, "resource") {
        Some(StructureKind::Resource)
    } else if str_eq(k, "complex-type") {
        Some(StructureKind::ComplexType)
    } else if str_eq(k, "primitive-type") {
        Some(StructureKind::PrimitiveType)
    } else if str_eq(k, "logical") {
        Some(StructureKind::LogicalModel)
    } else {
        None
    }
}

impl ElementType {
    /// A copy with the same view.
    pub fn copy(&self) -> (r: Self)
        ensures
            r@ == self@,
    {
        let t = copy_string_vec(&self.target_profiles);
        ElementType { code: self.code.clone(), target_profiles: t }
    }
}

/// Copies a list of strings.
fn copy_string_vec(v: &Vec<String>) -> (r: Vec<String>)
    ensures
        strs(r@) == strs(v@),
{
    let r = crate::ir::copy_strings(v);
    r
}

fn copy_opt(o: &Option<String>) -> (r: Option<String>)
    ensures
        opt_str(r) == opt_str(*o),
{
    crate::ir::copy_opt_string(o)
}

impl Binding {
    /// A copy with the same view.
    pub fn copy(&self) -> (r: Self)
        ensures
            r@ == self@,
    {
        Binding {
            strength: self.strength.clone(),
            value_set: copy_opt(&self.value_set),
            description: copy_opt(&self.description),
        }
    }
}

impl Constraint {
    /// A copy with the same view.
    pub fn copy(&self) -> (r: Self)
        ensures
            r@ == self@,
    {
        Constraint {
            key: self.key.clone(),
            severity: self.severity.clone(),
            human: self.human.clone(),
            expression: copy_opt(&self.expression),
            xpath: copy_opt(&self.xpath),
        }
    }
}

impl ElementDefinition {
    /// A copy with the same view.
    pub fn copy(&self) -> (r: Self)
        ensures
            r@ == self@,
    {
        let mut types: Vec<ElementType> = Vec::new();
        let mut i: usize = 0;
        while i < self.types.len()
            invariant
                i <= self.types@.len(),
                types@.len() == i,
                forall|k: int| 0 <= k < i ==> types@[k]@ == self.types@[k]@,
            decreases self.types.len() - i,
        {
            types.push(self.types[i].copy());
            i = i + 1;
        }
        let mut constraints: Vec<Constraint> = Vec::new();
        let mut i: usize = 0;
        while i < self.constraints.len()
            invariant
                i <= self.constraints@.len(),
                constraints@.len() == i,
                forall|k: int| 0 <= k < i ==> constraints@[k]@ == self.constraints@[k]@,
            decreases self.constraints.len() - i,
        {
            constraints.push(self.constraints[i].copy());
            i = i + 1;
        }
        assert(types@.map_values(|t: ElementType| t@) =~= self.types@.map_values(|t: ElementType| t@));
        assert(constraints@.map_values(|c: Constraint| c@) =~= self.constraints@.map_values(|c: Constraint| c@));
        let binding = match &self.binding {
            Some(b) => Some(b.copy()),
            None => None,
        };
        let r = ElementDefinition {
            path: self.path.clone(),
            short: copy_opt(&self.short),
            definition: copy_opt(&self.definition),
            min: self.min,
            max: self.max,
            types,
            binding,
            constraints,
        };
        assert(r@.types =~= self@.types);
        assert(r@.constraints =~= self@.constraints);
        r
    }
}

impl ParsedStructure {
    /// A copy with the same view.
    pub fn copy(&self) -> (r: Self)
        ensures
            r@ == self@,
    {
        let mut elements: Vec<ElementDefinition> = Vec::new();
        let mut i: usize = 0;
        while i < self.elements.len()
            invariant
                i <= self.elements@.len(),
                elements@.len() == i,
                forall|k: int| 0 <= k < i ==> elements@[k]@ == self.elements@[k]@,
            decreases self.elements.len() - i,
        {
            elements.push(self.elements[i].copy());
            i = i + 1;
        }
        assert(elements@.map_values(|e: ElementDefinition| e@) =~= self.elements@.map_values(|e: ElementDefinition| e@));
        let r = ParsedStructure {
            url: self.url.clone(),
            name: self.name.clone(),
            kind: self.kind,
            base_definition: copy_opt(&self.base_definition),
            is_abstract: self.is_abstract,
            elements,
            differential: self.differential,
        };
        assert(r@.elements =~= self@.elements);
        r
    }
}

/// The primitive type codes.
pub open spec fn is_primitive_code(c: Seq<char>) -> bool {
    c == "base64Binary"@ || c == "boolean"@ || c == "canonical"@ || c == "code"@ || c == "date"@
        || c == "dateTime"@ || c == "decimal"@ || c == "id"@ || c == "instant"@ || c == "integer"@
        || c == "integer64"@ || c == "markdown"@ || c == "oid"@ || c == "positiveInt"@
        || c == "string"@ || c == "time"@ || c == "unsignedInt"@ || c == "uri"@ || c == "url"@
        || c == "uuid"@ || c == "xhtml"@
}

/// The field name an element path gives under `root`: the path without
/// `root.`, up to its next `.`.
pub open spec fn leaf_of(path: Seq<char>, root: Seq<char>) -> Seq<char> {
    before_dot(strip_root_spec(path, root))
}

/// The name a property gets: the field name without its `[x]` suffix.
pub open spec fn stored_name(path: Seq<char>, root: Seq<char>) -> Seq<char> {
    trim_marker(leaf_of(path, root))
}

/// The elements that become properties, in order: all but the root element
/// and those whose field (the path's segment after `root.`, `[x]` included)
/// an earlier element already gave a property.
pub open spec fn kept_elements(es: Seq<ElementView>, root: Seq<char>) -> Seq<ElementView>
    decreases es.len(),
{
    if es.len() == 0 {
        Seq::empty()
    } else {
        let k = kept_elements(es.drop_last(), root);
        let e = es.last();
        if e.path == root || k.map_values(|x: ElementView| leaf_of(x.path, root)).contains(
            leaf_of(e.path, root),
        ) {
            k
        } else {
            k.push(e)
        }
    }
}

/// One property per top-level field: the elements that become properties
/// have pairwise distinct field names, and none is the root element.
pub proof fn lemma_one_property_per_field(es: Seq<ElementView>, root: Seq<char>)
    ensures
        forall|i: int, j: int|
            0 <= i < j < kept_elements(es, root).len() ==> leaf_of(
                #[trigger] kept_elements(es, root)[i].path,
                root,
            ) != leaf_of(#[trigger] kept_elements(es, root)[j].path, root),
        forall|i: int|
            0 <= i < kept_elements(es, root).len() ==> #[trigger] kept_elements(es, root)[i].path != root,
    decreases es.len(),
{
    if es.len() > 0 {
        lemma_one_property_per_field(es.drop_last(), root);
        let k = kept_elements(es.drop_last(), root);
        let e = es.last();
        let names = k.map_values(|x: ElementView| leaf_of(x.path, root));
        if !(e.path == root || names.contains(leaf_of(e.path, root))) {
            let nk = k.push(e);
            assert forall|i: int, j: int| 0 <= i < j < nk.len() implies leaf_of(#[trigger] nk[i].path, root)
                != leaf_of(#[trigger] nk[j].path, root) by {
                if j == k.len() {
                    assert(names[i] == leaf_of(k[i].path, root));
                }
            }
        }
    }
}

/// When the first element is the root and every later element has a field
/// name of its own, every later element becomes a property, in order.
pub proof fn lemma_distinct_fields_all_kept(es: Seq<ElementView>, root: Seq<char>)
    requires
        es.len() >= 1,
        es[0].path == root,
        forall|i: int| 1 <= i < es.len() ==> #[trigger] es[i].path != root,
        forall|i: int, j: int|
            1 <= i < j < es.len() ==> leaf_of(#[trigger] es[i].path, root) != leaf_of(
                #[trigger] es[j].path,
                root,
            ),
    ensures
        kept_elements(es, root) == es.drop_first(),
    decreases es.len(),
{
    if es.len() == 1 {
        assert(es.drop_last() =~= Seq::<ElementView>::empty());
        assert(es.drop_first() =~= Seq::<ElementView>::empty());
        assert(es.last() == es[0]);
        assert(kept_elements(es.drop_last(), root) =~= Seq::<ElementView>::empty());
    } else {
        let p = es.drop_last();
        assert(p[0] == es[0]);
        assert forall|i: int| 1 <= i < p.len() implies #[trigger] p[i].path != root by {
            assert(p[i] == es[i]);
        }
        assert forall|i: int, j: int| 1 <= i < j < p.len() implies leaf_of(#[trigger] p[i].path, root) != leaf_of(
            #[trigger] p[j].path,
            root,
        ) by {
            assert(p[i] == es[i] && p[j] == es[j]);
        }
        lemma_distinct_fields_all_kept(p, root);
        let k = kept_elements(p, root);
        assert(k == p.drop_first());
        let e = es.last();
        let names = k.map_values(|x: ElementView| leaf_of(x.path, root));
        assert(!names.contains(leaf_of(e.path, root))) by {
            if names.contains(leaf_of(e.path, root)) {
                let m = choose|m: int| 0 <= m < names.len() && names[m] == leaf_of(e.path, root);
                assert(k[m] == es[m + 1]);
                assert(leaf_of(es[m + 1].path, root) != leaf_of(es[es.len() - 1].path, root));
            }
        }
        assert(e.path != root);
        assert(k.push(e) =~= es.drop_first());
    }
}

/// Every element that becomes a property is one of the given elements.
proof fn lemma_kept_are_elements(es: Seq<ElementView>, root: Seq<char>)
    ensures
        forall|i: int|
            0 <= i < kept_elements(es, root).len() ==> exists|j: int|
                0 <= j < es.len() && es[j] == #[trigger] kept_elements(es, root)[i],
    decreases es.len(),
{
    if es.len() > 0 {
        let p = es.drop_last();
        lemma_kept_are_elements(p, root);
        let k = kept_elements(p, root);
        assert forall|i: int| 0 <= i < kept_elements(es, root).len() implies exists|j: int|
            0 <= j < es.len() && es[j] == #[trigger] kept_elements(es, root)[i] by {
            if i < k.len() {
                assert(kept_elements(es, root)[i] == k[i]);
                let j = choose|j: int| 0 <= j < p.len() && p[j] == k[i];
                assert(es[j] == p[j]);
            } else {
                assert(kept_elements(es, root)[i] == es[es.len() - 1]);
            }
        }
    }
}

/// Properties made from elements with consistent bounds have consistent
/// cardinalities; `parse` accepts only such elements.
pub proof fn lemma_valid_cardinalities(props: Seq<Property>, es: Seq<ElementView>, root: Seq<char>)
    requires
        properties_from(props, es, root),
        elements_valid(es),
    ensures
        forall|i: int| 0 <= i < props.len() ==> (#[trigger] props[i]).cardinality.spec_is_valid(),
{
    lemma_kept_are_elements(es, root);
    let kept = kept_elements(es, root);
    assert forall|i: int| 0 <= i < props.len() implies (#[trigger] props[i]).cardinality.spec_is_valid() by {
        assert(property_from(props[i], kept[i], root));
        let j = choose|j: int| 0 <= j < es.len() && es[j] == kept[i];
        assert(element_valid(es[j]));
    }
}

/// The codes of the declared types.
pub open spec fn codes(types: Seq<ElementTypeView>) -> Seq<Seq<char>> {
    types.map_values(|t: ElementTypeView| t.code)
}

/// A single `Reference` type that names target profiles.
pub open spec fn is_targeted_reference(types: Seq<ElementTypeView>) -> bool {
    types.len() == 1 && types[0].code == "Reference"@ && types[0].target_profiles.len() > 0
}

/// `pt` is the property type that the declared `types` give.
pub open spec fn property_type_matches(pt: PropertyType, types: Seq<ElementTypeView>) -> bool {
    match pt {
        PropertyType::BackboneElement { properties } => types.len() == 0 && properties@.len() == 0,
        PropertyType::Reference { target_types } => is_targeted_reference(types) && strs(
            target_types@,
        ) == types[0].target_profiles.map_values(|u: Seq<char>| after_last(u, '/')),
        PropertyType::Primitive { name } => types.len() == 1 && !is_targeted_reference(types)
            && is_primitive_code(types[0].code) && name@ == types[0].code,
        PropertyType::Complex { name } => types.len() == 1 && !is_targeted_reference(types)
            && !is_primitive_code(types[0].code) && name@ == types[0].code,
        PropertyType::Choice { types: ts } => types.len() > 1 && strs(ts@) == codes(types),
    }
}

/// The cardinality of an element.
pub open spec fn cardinality_of(e: ElementView) -> CardinalityRange {
    CardinalityRange {
        min: e.min,
        max: match e.max {
            Cardinality::Finite(n) => Some(n),
            Cardinality::Unbounded => None,
        },
    }
}

/// An optional text, empty when absent.
pub open spec fn text_or_empty(o: Option<Seq<char>>) -> Seq<char> {
    match o {
        Some(s) => s,
        None => Seq::empty(),
    }
}

/// `p` is the property that element `e` gives under `root`.
pub open spec fn property_from(p: Property, e: ElementView, root: Seq<char>) -> bool {
    let is_choice = ends_with_marker(leaf_of(e.path, root));
    &&& p.name@ == stored_name(e.path, root)
    &&& p.path@ == e.path
    &&& property_type_matches(p.property_type, e.types)
    &&& p.cardinality == cardinality_of(e)
    &&& p.is_choice == is_choice
    &&& strs(p.choice_types@) == (if is_choice {
        codes(e.types)
    } else {
        Seq::empty()
    })
    &&& !p.is_modifier
    &&& !p.is_summary
    &&& p.binding is None
    &&& p.constraints@.len() == 0
    &&& p.short_description@ == text_or_empty(e.short)
    &&& p.definition@ == text_or_empty(e.definition)
    &&& p.comments is None
    &&& p.examples@.len() == 0
}

/// `props` are the properties that the elements `es` give under `root`.
pub open spec fn properties_from(props: Seq<Property>, es: Seq<ElementView>, root: Seq<char>) -> bool {
    let kept = kept_elements(es, root);
    &&& props.len() == kept.len()
    &&& forall|i: int| 0 <= i < props.len() ==> property_from(#[trigger] props[i], kept[i], root)
}

/// `t` is the IR resource type of parsed structure `p`, before search
/// parameters are attached.
pub open spec fn resource_from(t: ResourceType, p: ParsedView) -> bool {
    resource_shape(t, p) && t.search_parameters@.len() == 0
}

/// `t` has everything but the search parameters from parsed structure `p`.
pub open spec fn resource_shape(t: ResourceType, p: ParsedView) -> bool {
    &&& t.name@ == p.name
    &&& opt_str(t.base) == p.base_definition
    &&& properties_from(t.properties@, p.elements, p.name)
    &&& t.documentation.short@ == "FHIR "@ + p.name + " Resource"@
    &&& t.documentation.definition@.len() == 0
    &&& t.documentation.comments is None
    &&& t.documentation.requirements is None
    &&& t.documentation.usage_notes@.len() == 0
    &&& opt_str(t.documentation.url) == Some(p.url)
    &&& t.url@ == p.url
    &&& t.is_abstract == p.is_abstract
}

/// `t` is the IR datatype of parsed structure `p`.
pub open spec fn datatype_from(t: DataType, p: ParsedView) -> bool {
    &&& t.name@ == p.name
    &&& opt_str(t.base) == p.base_definition
    &&& properties_from(t.properties@, p.elements, p.name)
    &&& t.documentation.short@ == "FHIR "@ + p.name + " DataType"@
    &&& t.documentation.definition@.len() == 0
    &&& t.documentation.comments is None
    &&& t.documentation.requirements is None
    &&& t.documentation.usage_notes@.len() == 0
    &&& opt_str(t.documentation.url) == Some(p.url)
    &&& t.url@ == p.url
    &&& t.is_abstract == p.is_abstract
}

/// The codes of an element's declared types.
fn type_codes(e: &ElementDefinition) -> (r: Vec<String>)
    ensures
        strs(r@) == codes(e@.types),
{
    let mut r: Vec<String> = Vec::new();
    let mut i: usize = 0;
    while i < e.types.len()
        invariant
            i <= e.types@.len(),
            r@.len() == i,
            forall|k: int| 0 <= k < i ==> r@[k]@ == e.types@[k].code@,
        decreases e.types.len() - i,
    {
        r.push(e.types[i].code.clone());
        i = i + 1;
    }
    assert(strs(r@) =~= codes(e@.types));
    r
}

/// The target type names of reference profiles: the last segment of each URL.
fn target_names(profiles: &Vec<String>) -> (r: Vec<String>)
    ensures
        strs(r@) == strs(profiles@).map_values(|u: Seq<char>| after_last(u, '/')),
{
    let mut r: Vec<String> = Vec::new();
    let mut i: usize = 0;
    while i < profiles.len()
        invariant
            i <= profiles@.len(),
            r@.len() == i,
            forall|k: int| 0 <= k < i ==> r@[k]@ == after_last(profiles@[k]@, '/'),
        decreases profiles.len() - i,
    {
        r.push(last_segment(profiles[i].as_str(), '/'));
        i = i + 1;
    }
    assert(strs(r@) =~= strs(profiles@).map_values(|u: Seq<char>| after_last(u, '/')));
    r
}

/// The property type that an element's declared types give.
fn property_type_for(e: &ElementDefinition) -> (r: PropertyType)
    ensures
        property_type_matches(r, e@.types),
{
    let n = e.types.len();
    if n == 0 {
        let properties: Vec<Property> = Vec::new();
        PropertyType::BackboneElement { properties }
    } else if n == 1 {
        let t = &e.types[0];
        assert(e@.types[0] == t@);
        if str_eq(t.code.as_str(), "Reference") && t.target_profiles.len() > 0 {
            PropertyType::Reference { target_types: target_names(&t.target_profiles) }
        } else if StructureDefinitionParser::is_primitive(t.code.as_str()) {
            PropertyType::Primitive { name: t.code.clone() }
        } else {
            PropertyType::Complex { name: t.code.clone() }
        }
    } else {
        PropertyType::Choice { types: type_codes(e) }
    }
}

/// The property that element `e` gives, named `leaf` under `root`.
fn property_for(e: &ElementDefinition, leaf: &String, Ghost(root): Ghost<Seq<char>>) -> (r: Property)
    requires
        leaf@ == leaf_of(e.path@, root),
    ensures
        property_from(r, e@, root),
{
    let is_choice = has_choice_marker(leaf.as_str());
    let name = if is_choice {
        trim_choice_marker(leaf.as_str())
    } else {
        leaf.clone()
    };
    let choice_types = if is_choice {
        type_codes(e)
    } else {
        let v: Vec<String> = Vec::new();
        assert(strs(v@) =~= Seq::<Seq<char>>::empty());
        v
    };
    let cardinality = CardinalityRange {
        min: e.min,
        max: match e.max {
            Cardinality::Finite(n) => Some(n),
            Cardinality::Unbounded => None,
        },
    };
    let short_description = match &e.short {
        Some(s) => s.clone(),
        None => String::new(),
    };
    let definition = match &e.definition {
        Some(s) => s.clone(),
        None => String::new(),
    };
    proof {
        if !is_choice {
            assert(trim_marker(leaf@) == leaf@);
        }
    }
    Property {
        name,
        path: e.path.clone(),
        property_type: property_type_for(e),
        cardinality,
        is_choice,
        choice_types,
        is_modifier: false,
        is_summary: false,
        binding: None,
        constraints: Vec::new(),
        short_description,
        definition,
        comments: None,
        examples: Vec::new(),
    }
}

/// Flattens element definitions into properties: one per top-level field of
/// `root_name`, the first element of each field deciding it.
pub fn elements_to_properties(elements: &Vec<ElementDefinition>, root_name: &str) -> (r: Vec<Property>)
    ensures
        properties_from(r@, elements@.map_values(|e: ElementDefinition| e@), root_name@),
{
    let ghost es = elements@.map_values(|e: ElementDefinition| e@);
    let ghost root = root_name@;
    let mut properties: Vec<Property> = Vec::new();
    let mut leaves: Vec<String> = Vec::new();
    let mut i: usize = 0;
    while i < elements.len()
        invariant
            i <= elements@.len(),
            es == elements@.map_values(|e: ElementDefinition| e@),
            root == root_name@,
            properties_from(properties@, es.subrange(0, i as int), root),
            leaves@.len() == kept_elements(es.subrange(0, i as int), root).len(),
            forall|k: int| 0 <= k < leaves@.len() ==> #[trigger] leaves@[k]@ == leaf_of(
                kept_elements(es.subrange(0, i as int), root)[k].path,
                root,
            ),
        decreases elements.len() - i,
    {
        let e = &elements[i];
        let ghost pre = es.subrange(0, i as int);
        let ghost kept = kept_elements(pre, root);
        assert(es.subrange(0, i + 1).drop_last() =~= pre);
        assert(es.subrange(0, i + 1).last() == e@);
        if str_eq(e.path.as_str(), root_name) {
            i = i + 1;
            continue;
        }
        let rest = strip_root(e.path.as_str(), root_name);
        let leaf = prefix_before_dot(rest.as_str());
        let ghost names = kept.map_values(|x: ElementView| leaf_of(x.path, root));
        let mut found = false;
        let mut j: usize = 0;
        while j < leaves.len()
            invariant
                j <= leaves@.len(),
                leaves@.len() == kept.len(),
                forall|k: int| 0 <= k < leaves@.len() ==> #[trigger] leaves@[k]@ == leaf_of(kept[k].path, root),
                kept == kept_elements(pre, root),
                names == kept.map_values(|x: ElementView| leaf_of(x.path, root)),
                found ==> names.contains(leaf@),
                !found ==> forall|k: int| 0 <= k < j ==> names[k] != leaf@,
            decreases leaves.len() - j,
        {
            if str_eq(leaves[j].as_str(), leaf.as_str()) {
                assert(names[j as int] == leaf@);
                found = true;
            }
            j = j + 1;
        }
        if found {
            i = i + 1;
            continue;
        }
        assert(!names.contains(leaf@));
        let p = property_for(e, &leaf, Ghost(root));
        let ghost before = properties@;
        let ghost before_leaves = leaves@;
        properties.push(p);
        leaves.push(leaf);
        proof {
            let nk = kept_elements(es.subrange(0, i + 1), root);
            assert(nk == kept.push(e@));
            assert forall|k: int| 0 <= k < properties@.len() implies property_from(
                #[trigger] properties@[k],
                nk[k],
                root,
            ) by {
                if k < kept.len() {
                    assert(properties@[k] == before[k]);
                    assert(property_from(before[k], kept[k], root));
                }
            }
            assert forall|k: int| 0 <= k < leaves@.len() implies #[trigger] leaves@[k]@ == leaf_of(nk[k].path, root) by {
                if k < kept.len() {
                    assert(leaves@[k] == before_leaves[k]);
                }
            }
        }
        i = i + 1;
    }
    assert(es.subrange(0, elements@.len() as int) =~= es);
    properties
}

/// Parser for FHIR StructureDefinitions, with a cache of what it parsed,
/// keyed by canonical URL.
pub struct StructureDefinitionParser {
    cache: TypeMap<ParsedStructure>,
}

impl StructureDefinitionParser {
    /// Is `type_code` one of the primitive type codes?
    pub fn is_primitive(type_code: &str) -> (r: bool)
        ensures
            r == is_primitive_code(type_code@),
    {
        str_eq(type_code, "base64Binary") || str_eq(type_code, "boolean") || str_eq(
            type_code,
            "canonical",
        ) || str_eq(type_code, "code") || str_eq(type_code, "date") || str_eq(type_code, "dateTime")
            || str_eq(type_code, "decimal") || str_eq(type_code, "id") || str_eq(type_code, "instant")
            || str_eq(type_code, "integer") || str_eq(type_code, "integer64") || str_eq(
            type_code,
            "markdown",
        ) || str_eq(type_code, "oid") || str_eq(type_code, "positiveInt") || str_eq(
            type_code,
            "string",
        ) || str_eq(type_code, "time") || str_eq(type_code, "unsignedInt") || str_eq(type_code, "uri")
            || str_eq(type_code, "url") || str_eq(type_code, "uuid") || str_eq(type_code, "xhtml")
    }

    /// The cache has unique keys.
    pub open spec fn wf(&self) -> bool {
        self.cache_map().wf()
    }

    /// The cache of parsed structures.
    pub closed spec fn cache_map(&self) -> TypeMap<ParsedStructure> {
        self.cache
    }

    /// A parser with an empty cache.
    pub fn new() -> (r: Self)
        ensures
            r.wf(),
            r.cache_map().spec_entries().len() == 0,
    {
        StructureDefinitionParser { cache: TypeMap::new() }
    }

    /// How many structures the cache holds.
    pub fn cached_count(&self) -> (r: usize)
        ensures
            r == self.cache_map().spec_entries().len(),
    {
        self.cache.len()
    }

    /// Parses a StructureDefinition document. On success the result is also
    /// cached under its URL.
    pub fn parse(&mut self, json: &Json) -> (r: Result<ParsedStructure, Error>)
        requires
            old(self).wf(),
        ensures
            final(self).wf(),
            match r {
                Ok(p) => parse_spec(*json) == Ok::<ParsedView, Seq<char>>(p@)
                    && final(self).cache_map().spec_get(p.url@) is Some
                    && final(self).cache_map().spec_get(p.url@).unwrap()@ == p@
                    && forall|k: Seq<char>| k != p.url@ ==> #[trigger] final(self).cache_map().spec_get(k)
                        == old(self).cache_map().spec_get(k),
                Err(e) => e is Parser && parse_spec(*json) == Err::<ParsedView, Seq<char>>(e->Parser_0@)
                    && final(self).cache_map() == old(self).cache_map(),
            },
    {
        let resource_type = match json.str_member("resourceType") {
            Some(s) => s,
            None => return Err(parser_error("Missing resourceType")),
        };
        if !str_eq(resource_type, "StructureDefinition") {
            return Err(parser_error2("Expected StructureDefinition, got ", resource_type));
        }
        let url = match json.str_member("url") {
            Some(s) => s.to_owned(),
            None => return Err(parser_error("Missing url")),
        };
        let name = match json.str_member("name") {
            Some(s) => s.to_owned(),
            None => return Err(parser_error("Missing name")),
        };
        let kind = match json.str_member("kind") {
            Some(s) => s,
            None => return Err(parser_error("Missing kind")),
        };
        let structure_kind = match kind_of(kind) {
            Some(k) => k,
            None => return Err(parser_error2("Unknown kind: ", kind)),
        };
        let base_definition = owned_str_member(json, "baseDefinition");
        let is_abstract = match json.bool_member("abstract") {
            Some(b) => b,
            None => false,
        };
        let (elements, differential) = match json.get("snapshot") {
            Some(snap) => match parse_element_definitions(snap) {
                Ok(es) => (es, false),
                Err(e) => return Err(e),
            },
            None => match json.get("differential") {
                Some(diff) => match parse_element_definitions(diff) {
                    Ok(es) => (es, true),
                    Err(e) => return Err(e),
                },
                None => return Err(parser_error("Missing both snapshot and differential")),
            },
        };
        if !cardinalities_valid(&elements) {
            return Err(parser_error("Element min exceeds max"));
        }
        let parsed = ParsedStructure {
            url,
            name,
            kind: structure_kind,
            base_definition,
            is_abstract,
            elements,
            differential,
        };
        let cached = parsed.copy();
        self.cache.insert(parsed.url.clone(), cached);
        Ok(parsed)
    }

    /// Converts a parsed resource into an IR resource type; a structure of
    /// another kind is an error.
    pub fn to_resource_type(&self, parsed: &ParsedStructure) -> (r: Result<ResourceType, Error>)
        ensures
            match r {
                Ok(t) => parsed.kind == StructureKind::Resource && resource_from(t, parsed@),
                Err(e) => parsed.kind != StructureKind::Resource && e is Parser
                    && e->Parser_0@ == parsed.name@ + " is not a resource"@,
            },
    {
        if parsed.kind != StructureKind::Resource {
            let mut m = parsed.name.clone();
            m.append(" is not a resource");
            return Err(Error::Parser(m));
        }
        let properties = elements_to_properties(&parsed.elements, parsed.name.as_str());
        let mut short = "FHIR ".to_owned();
        short.append(parsed.name.as_str());
        short.append(" Resource");
        Ok(
            ResourceType {
                name: parsed.name.clone(),
                base: copy_opt(&parsed.base_definition),
                properties,
                search_parameters: Vec::new(),
                documentation: Documentation::with_short_and_url(short, parsed.url.clone()),
                url: parsed.url.clone(),
                is_abstract: parsed.is_abstract,
            },
        )
    }

    /// Converts a parsed complex type into an IR datatype; a structure of
    /// another kind is an error.
    pub fn to_datatype(&self, parsed: &ParsedStructure) -> (r: Result<DataType, Error>)
        ensures
            match r {
                Ok(t) => parsed.kind == StructureKind::ComplexType && datatype_from(t, parsed@),
                Err(e) => parsed.kind != StructureKind::ComplexType && e is Parser
                    && e->Parser_0@ == parsed.name@ + " is not a complex type"@,
            },
    {
        if parsed.kind != StructureKind::ComplexType {
            let mut m = parsed.name.clone();
            m.append(" is not a complex type");
            return Err(Error::Parser(m));
        }
        let properties = elements_to_properties(&parsed.elements, parsed.name.as_str());
        let mut short = "FHIR ".to_owned();
        short.append(parsed.name.as_str());
        short.append(" DataType");
        Ok(
            DataType {
                name: parsed.name.clone(),
                base: copy_opt(&parsed.base_definition),
                properties,
                documentation: Documentation::with_short_and_url(short, parsed.url.clone()),
                url: parsed.url.clone(),
                is_abstract: parsed.is_abstract,
            },
        )
    }
}

} // verus!
