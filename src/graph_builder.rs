//! Assembles a type graph from schema documents: categorization by kind,
//! conversion in dependency order with per-item failures dropped, and
//! attachment of search parameters to their base resources.

use vstd::prelude::*;
use crate::error::Error;
use crate::ir::{
    lemma_prefix_step, DataType, Documentation, FhirVersion, GraphMetadata, PrimitiveType,
    ResourceType, SearchParamType, SearchParamView, SearchParameter, TypeGraph, TypeMap,
};
use crate::json::{array_field, str_field, strings_in, collect_strings, Json};
use crate::parser::{
    datatype_from, opt_str, parse_spec, parser_error2, resource_from, resource_shape, strs, ParsedView, StructureDefinitionParser,
    StructureKind,
};
use crate::text::str_eq;

verus! {

/// The name a document is filed under: its `name`, or `unknown`.
pub open spec fn doc_name(j: Json) -> Seq<char> {
    match str_field(j, "name"@) {
        Some(n) => n,
        None => "unknown"@,
    }
}

/// Where the last document of kind `kind` named `name` stands among `ds`.
pub open spec fn bucket_get(ds: Seq<Json>, kind: Seq<char>, name: Seq<char>) -> Option<int>
    decreases ds.len(),
{
    if ds.len() == 0 {
        None
    } else if str_field(ds.last(), "kind"@) == Some(kind) && doc_name(ds.last()) == name {
        Some(ds.len() - 1)
    } else {
        bucket_get(ds.drop_last(), kind, name)
    }
}

/// A bucket of documents by name: it holds, under each name, where the last
/// document of `kind` with that name stands, and nothing else.
pub open spec fn bucket_holds(b: TypeMap<usize>, ds: Seq<Json>, kind: Seq<char>) -> bool {
    &&& b.wf()
    &&& forall|name: Seq<char>|
        match #[trigger] b.spec_get(name) {
            Some(i) => bucket_get(ds, kind, name) == Some(i as int),
            None => bucket_get(ds, kind, name).is_none(),
        }
}

/// Every bucketed document has the bucket's kind, so a document whose kind
/// is missing or is none of `resource`, `complex-type`, `primitive-type`
/// lands in no bucket.
pub proof fn lemma_bucket_kind(ds: Seq<Json>, kind: Seq<char>, name: Seq<char>)
    ensures
        match bucket_get(ds, kind, name) {
            Some(i) => 0 <= i < ds.len() && str_field(ds[i], "kind"@) == Some(kind) && doc_name(ds[i]) == name,
            None => forall|i: int| 0 <= i < ds.len() ==> !(str_field(ds[i], "kind"@) == Some(kind) && doc_name(ds[i]) == name),
        },
    decreases ds.len(),
{
    if ds.len() > 0 {
        lemma_bucket_kind(ds.drop_last(), kind, name);
        if !(str_field(ds.last(), "kind"@) == Some(kind) && doc_name(ds.last()) == name) {
            assert forall|i: int| 0 <= i < ds.len() - 1 implies ds.drop_last()[i] == ds[i] by {}
        }
    }
}

/// A document whose kind is missing or is none of `resource`,
/// `complex-type` and `primitive-type` is filed in no bucket, so it gives no
/// entry of the graph.
pub proof fn lemma_unknown_kind_skipped(ds: Seq<Json>, i: int, name: Seq<char>)
    requires
        0 <= i < ds.len(),
        str_field(ds[i], "kind"@) != Some("resource"@),
        str_field(ds[i], "kind"@) != Some("complex-type"@),
        str_field(ds[i], "kind"@) != Some("primitive-type"@),
    ensures
        bucket_get(ds, "resource"@, name) != Some(i),
        bucket_get(ds, "complex-type"@, name) != Some(i),
        bucket_get(ds, "primitive-type"@, name) != Some(i),
{
    lemma_bucket_kind(ds, "resource"@, name);
    lemma_bucket_kind(ds, "complex-type"@, name);
    lemma_bucket_kind(ds, "primitive-type"@, name);
}

/// The three buckets of documents by kind: resources, complex types and
/// primitive types.
pub struct Categorized {
    pub resources: TypeMap<usize>,
    pub datatypes: TypeMap<usize>,
    pub primitives: TypeMap<usize>,
}

/// Files each document under its name in the bucket of its kind; a document
/// whose kind is missing or unknown is skipped.
pub fn categorize_structures(structure_defs: &Vec<Json>) -> (r: Categorized)
    ensures
        bucket_holds(r.resources, structure_defs@, "resource"@),
        bucket_holds(r.datatypes, structure_defs@, "complex-type"@),
        bucket_holds(r.primitives, structure_defs@, "primitive-type"@),
{
    let mut resources: TypeMap<usize> = TypeMap::new();
    let mut datatypes: TypeMap<usize> = TypeMap::new();
    let mut primitives: TypeMap<usize> = TypeMap::new();
    let mut i: usize = 0;
    while i < structure_defs.len()
        invariant
            i <= structure_defs@.len(),
            bucket_holds(resources, structure_defs@.subrange(0, i as int), "resource"@),
            bucket_holds(datatypes, structure_defs@.subrange(0, i as int), "complex-type"@),
            bucket_holds(primitives, structure_defs@.subrange(0, i as int), "primitive-type"@),
        decreases structure_defs.len() - i,
    {
        let sd = &structure_defs[i];
        let ghost pre = structure_defs@.subrange(0, i as int);
        let ghost next = structure_defs@.subrange(0, i + 1);
        assert(next.drop_last() =~= pre);
        assert(next.last() == *sd);
        let name = match sd.str_member("name") {
            Some(n) => n.to_owned(),
            None => {
                proof { reveal_strlit("unknown"); }
                "unknown".to_owned()
            },
        };
        assert(name@ == doc_name(*sd));
        proof {
            reveal_strlit("resource");
            reveal_strlit("complex-type");
            reveal_strlit("primitive-type");
            assert("resource"@.len() != "complex-type"@.len());
            assert("resource"@.len() != "primitive-type"@.len());
            assert("complex-type"@.len() != "primitive-type"@.len());
        }
        match sd.str_member("kind") {
            Some(k) => {
                if str_eq(k, "resource") {
                    resources.insert(name, i);
                } else if str_eq(k, "complex-type") {
                    datatypes.insert(name, i);
                } else if str_eq(k, "primitive-type") {
                    primitives.insert(name, i);
                }
            },
            None => {},
        }
        i = i + 1;
    }
    assert(structure_defs@.subrange(0, structure_defs@.len() as int) =~= structure_defs@);
    Categorized { resources, datatypes, primitives }
}

/// The search parameter type that a `type` text names.
pub open spec fn param_type_spec(t: Seq<char>) -> Option<SearchParamType> {
    if t == "number"@ {
        Some(SearchParamType::Number)
    } else if t == "date"@ {
        Some(SearchParamType::Date)
    } else if t == "string"@ {
        Some(SearchParamType::String)
    } else if t == "token"@ {
        Some(SearchParamType::Token)
    } else if t == "reference"@ {
        Some(SearchParamType::Reference)
    } else if t == "composite"@ {
        Some(SearchParamType::Composite)
    } else if t == "quantity"@ {
        Some(SearchParamType::Quantity)
    } else if t == "uri"@ {
        Some(SearchParamType::Uri)
    } else if t == "special"@ {
        Some(SearchParamType::Special)
    } else {
        None
    }
}

/// The strings of the array member `key`, empty when there is none.
pub open spec fn string_list(j: Json, key: Seq<char>) -> Seq<Seq<char>> {
    match array_field(j, key) {
        Some(v) => strings_in(v),
        None => Seq::empty(),
    }
}

/// A SearchParameter resource read, or the message of the first check it fails.
pub open spec fn search_param_spec(j: Json) -> Result<SearchParamView, Seq<char>> {
    match str_field(j, "code"@) {
        None => Err("SearchParameter missing code"@),
        Some(code) => match str_field(j, "type"@) {
            None => Err("SearchParameter missing type"@),
            Some(t) => match param_type_spec(t) {
                None => Err("Unknown search parameter type: "@ + t),
                Some(pt) => Ok(
                    SearchParamView {
                        code,
                        param_type: pt,
                        description: match str_field(j, "description"@) {
                            Some(d) => d,
                            None => Seq::empty(),
                        },
                        expression: str_field(j, "expression"@),
                        target_types: if pt == SearchParamType::Reference {
                            string_list(j, "target"@)
                        } else {
                            Seq::empty()
                        },
                    },
                ),
            },
        },
    }
}

/// `p`, once for each time `name` occurs among `bases`.
pub open spec fn repeat_for(bases: Seq<Seq<char>>, name: Seq<char>, p: SearchParamView) -> Seq<SearchParamView>
    decreases bases.len(),
{
    if bases.len() == 0 {
        Seq::empty()
    } else {
        let r = repeat_for(bases.drop_last(), name, p);
        if bases.last() == name {
            r.push(p)
        } else {
            r
        }
    }
}

/// The search parameters of resource `name`: each well-formed parameter
/// among `sps` whose `base` lists it, in order, once per listing.
pub open spec fn params_for(sps: Seq<Json>, name: Seq<char>) -> Seq<SearchParamView>
    decreases sps.len(),
{
    if sps.len() == 0 {
        Seq::empty()
    } else {
        let prev = params_for(sps.drop_last(), name);
        match search_param_spec(sps.last()) {
            Ok(p) => prev + repeat_for(string_list(sps.last(), "base"@), name, p),
            Err(_) => prev,
        }
    }
}

/// The search parameter type that `t` names.
fn param_type_of(t: &str) -> (r: Option<SearchParamType>)
    ensures
        r == param_type_spec(t@),
{
    if str_eq(t, "number") {
        Some(SearchParamType::Number)
    } else if str_eq(t, "date") {
        Some(SearchParamType::Date)
    } else if str_eq(t, "string") {
        Some(SearchParamType::String)
    } else if str_eq(t, "token") {
        Some(SearchParamType::Token)
    } else if str_eq(t, "reference") {
        Some(SearchParamType::Reference)
    } else if str_eq(t, "composite") {
        Some(SearchParamType::Composite)
    } else if str_eq(t, "quantity") {
        Some(SearchParamType::Quantity)
    } else if str_eq(t, "uri") {
        Some(SearchParamType::Uri)
    } else if str_eq(t, "special") {
        Some(SearchParamType::Special)
    } else {
        None
    }
}

/// The strings of the array member `key`.
fn string_list_of(j: &Json, key: &str) -> (r: Vec<String>)
    ensures
        strs(r@) == string_list(*j, key@),
{
    match j.array_member(key) {
        Some(a) => {
            let r = collect_strings(a);
            assert(strs(r@) =~= r@.map_values(|s: String| s@));
            r
        },
        None => {
            let r: Vec<String> = Vec::new();
            assert(strs(r@) =~= Seq::<Seq<char>>::empty());
            r
        },
    }
}

/// Reads a SearchParameter resource: its code and type are required, and an
/// unknown type is an error.
pub fn parse_search_parameter(content: &Json) -> (r: Result<SearchParameter, Error>)
    ensures
        match r {
            Ok(p) => search_param_spec(*content) == Ok::<SearchParamView, Seq<char>>(p@),
            Err(e) => e is Parser && search_param_spec(*content) == Err::<SearchParamView, Seq<char>>(e->Parser_0@),
        },
{
    let code = match content.str_member("code") {
        Some(c) => c.to_owned(),
        None => return Err(Error::Parser("SearchParameter missing code".to_owned())),
    };
    let t = match content.str_member("type") {
        Some(t) => t,
        None => return Err(Error::Parser("SearchParameter missing type".to_owned())),
    };
    let param_type = match param_type_of(t) {
        Some(pt) => pt,
        None => return Err(parser_error2("Unknown search parameter type: ", t)),
    };
    let description = match content.str_member("description") {
        Some(d) => d.to_owned(),
        None => String::new(),
    };
    let expression = match content.str_member("expression") {
        Some(e) => Some(e.to_owned()),
        None => None,
    };
    let target_types = if param_type == SearchParamType::Reference {
        string_list_of(content, "target")
    } else {
        let v: Vec<String> = Vec::new();
        v
    };
    let r = SearchParameter { code, param_type, description, expression, target_types };
    assert(r@.target_types =~= (if param_type == SearchParamType::Reference {
        string_list(*content, "target"@)
    } else {
        Seq::<Seq<char>>::empty()
    }));
    Ok(r)
}

/// A SearchParameter resource read once: the resources it applies to, and
/// the parameter when it is well-formed.
pub struct PreparedParam {
    pub bases: Vec<String>,
    pub param: Option<SearchParameter>,
}

/// `ps` are the SearchParameter resources `sps` read one by one.
pub open spec fn prepared_from(ps: Seq<PreparedParam>, sps: Seq<Json>) -> bool {
    &&& ps.len() == sps.len()
    &&& forall|i: int|
        0 <= i < ps.len() ==> {
            &&& strs((#[trigger] ps[i]).bases@) == string_list(sps[i], "base"@)
            &&& match ps[i].param {
                Some(p) => search_param_spec(sps[i]) == Ok::<SearchParamView, Seq<char>>(p@),
                None => search_param_spec(sps[i]) is Err,
            }
        }
}

/// Reads every SearchParameter resource once.
pub fn prepare_search_parameters(sps: &Vec<Json>) -> (r: Vec<PreparedParam>)
    ensures
        prepared_from(r@, sps@),
{
    let mut r: Vec<PreparedParam> = Vec::new();
    let mut i: usize = 0;
    while i < sps.len()
        invariant
            i <= sps@.len(),
            prepared_from(r@, sps@.subrange(0, i as int)),
        decreases sps.len() - i,
    {
        let bases = string_list_of(&sps[i], "base");
        let param = match parse_search_parameter(&sps[i]) {
            Ok(p) => Some(p),
            Err(_) => None,
        };
        r.push(PreparedParam { bases, param });
        assert forall|k: int| 0 <= k <= i implies sps@.subrange(0, i + 1)[k] == sps@[k] by {}
        i = i + 1;
    }
    assert(sps@.subrange(0, sps@.len() as int) =~= sps@);
    r
}

/// The search parameters of resource `name`, in order.
pub fn search_parameters_for(ps: &Vec<PreparedParam>, name: &str, Ghost(sps): Ghost<Seq<Json>>) -> (r: Vec<SearchParameter>)
    requires
        prepared_from(ps@, sps),
    ensures
        r@.map_values(|p: SearchParameter| p@) == params_for(sps, name@),
{
    let mut r: Vec<SearchParameter> = Vec::new();
    let mut i: usize = 0;
    while i < ps.len()
        invariant
            i <= ps@.len(),
            prepared_from(ps@, sps),
            r@.map_values(|p: SearchParameter| p@) == params_for(sps.subrange(0, i as int), name@),
        decreases ps.len() - i,
    {
        let ghost pre = sps.subrange(0, i as int);
        assert(sps.subrange(0, i + 1).drop_last() =~= pre);
        assert(sps.subrange(0, i + 1).last() == sps[i as int]);
        let entry = &ps[i];
        match &entry.param {
            Some(p) => {
                let ghost before = r@.map_values(|p: SearchParameter| p@);
                let ghost bases = strs(entry.bases@);
                let mut j: usize = 0;
                while j < entry.bases.len()
                    invariant
                        j <= entry.bases@.len(),
                        bases == strs(entry.bases@),
                        r@.map_values(|p: SearchParameter| p@) == before + repeat_for(bases.subrange(0, j as int), name@, p@),
                    decreases entry.bases.len() - j,
                {
                    assert(bases.subrange(0, j + 1).drop_last() =~= bases.subrange(0, j as int));
                    assert(bases.subrange(0, j + 1).last() == entry.bases@[j as int]@);
                    if str_eq(entry.bases[j].as_str(), name) {
                        let ghost r0 = r@;
                        r.push(p.copy());
                        assert(r@.map_values(|p: SearchParameter| p@) =~= r0.map_values(|p: SearchParameter| p@).push(p@));
                    }
                    j = j + 1;
                }
                assert(bases.subrange(0, bases.len() as int) =~= bases);
            },
            None => {},
        }
        i = i + 1;
    }
    assert(sps.subrange(0, ps@.len() as int) =~= sps);
    r
}

/// `t` is the IR primitive type of parsed structure `p`.
pub open spec fn primitive_from(t: PrimitiveType, p: ParsedView) -> bool {
    &&& t.name@ == p.name
    &&& opt_str(t.base) == p.base_definition
    &&& t.pattern is None
    &&& t.documentation.short@ == "FHIR primitive type "@ + p.name
    &&& t.documentation.definition@.len() == 0
    &&& t.documentation.comments is None
    &&& t.documentation.requirements is None
    &&& t.documentation.usage_notes@.len() == 0
    &&& opt_str(t.documentation.url) == Some(p.url)
    &&& t.url@ == p.url
}

/// What the graph holds under a name that the primitive bucket files at `idx`.
pub open spec fn primitive_slot(g: Option<PrimitiveType>, docs: Seq<Json>, idx: Option<int>) -> bool {
    match idx {
        None => g is None,
        Some(i) => match parse_spec(docs[i]) {
            Ok(p) => if p.kind == StructureKind::PrimitiveType {
                g is Some && primitive_from(g.unwrap(), p)
            } else {
                g is None
            },
            Err(_) => g is None,
        },
    }
}

/// What the graph holds under a name that the datatype bucket files at `idx`.
pub open spec fn datatype_slot(g: Option<DataType>, docs: Seq<Json>, idx: Option<int>) -> bool {
    match idx {
        None => g is None,
        Some(i) => match parse_spec(docs[i]) {
            Ok(p) => if p.kind == StructureKind::ComplexType {
                g is Some && datatype_from(g.unwrap(), p)
            } else {
                g is None
            },
            Err(_) => g is None,
        },
    }
}

/// What the graph holds under resource name `name` that the resource bucket
/// files at `idx`: the converted resource with its search parameters.
pub open spec fn resource_slot(
    g: Option<ResourceType>,
    docs: Seq<Json>,
    sps: Seq<Json>,
    name: Seq<char>,
    idx: Option<int>,
) -> bool {
    match idx {
        None => g is None,
        Some(i) => match parse_spec(docs[i]) {
            Ok(p) => if p.kind == StructureKind::Resource {
                &&& g is Some
                &&& resource_shape(g.unwrap(), p)
                &&& g.unwrap().search_parameters@.map_values(|sp: SearchParameter| sp@)
                    == params_for(sps, name)
            } else {
                g is None
            },
            Err(_) => g is None,
        },
    }
}

/// Builds type graphs, parsing each document with one parser whose cache
/// lives as long as the builder.
pub struct TypeGraphBuilder {
    parser: StructureDefinitionParser,
    fhir_version: FhirVersion,
}

impl TypeGraphBuilder {
    /// The parser's cache is well formed.
    pub closed spec fn wf(&self) -> bool {
        self.parser.wf()
    }

    /// The version graphs are built for.
    pub closed spec fn version(&self) -> FhirVersion {
        self.fhir_version
    }

    /// A builder for `fhir_version`.
    pub fn new(fhir_version: FhirVersion) -> (r: Self)
        ensures
            r.wf(),
            r.version() == fhir_version,
    {
        TypeGraphBuilder { parser: StructureDefinitionParser::new(), fhir_version }
    }

    /// The version graphs are built for.
    pub fn fhir_version(&self) -> (r: FhirVersion)
        ensures
            r == self.version(),
    {
        self.fhir_version
    }

    /// Parses a primitive type document and converts it.
    pub fn process_primitive(&mut self, sd_json: &Json) -> (r: Result<PrimitiveType, Error>)
        requires
            old(self).wf(),
        ensures
            final(self).wf(),
            final(self).version() == old(self).version(),
            match r {
                Ok(t) => match parse_spec(*sd_json) {
                    Ok(p) => p.kind == StructureKind::PrimitiveType && primitive_from(t, p),
                    Err(_) => false,
                },
                Err(e) => match parse_spec(*sd_json) {
                    Ok(p) => p.kind != StructureKind::PrimitiveType && e is Parser
                        && e->Parser_0@ == p.name + " is not a primitive type"@,
                    Err(m) => e is Parser && e->Parser_0@ == m,
                },
            },
    {
        let parsed = match self.parser.parse(sd_json) {
            Ok(p) => p,
            Err(e) => return Err(e),
        };
        if parsed.kind != StructureKind::PrimitiveType {
            let mut m = parsed.name.clone();
            m.append(" is not a primitive type");
            return Err(Error::Parser(m));
        }
        let mut short = "FHIR primitive type ".to_owned();
        short.append(parsed.name.as_str());
        let base = match &parsed.base_definition {
            Some(b) => Some(b.clone()),
            None => None,
        };
        Ok(
            PrimitiveType {
                name: parsed.name.clone(),
                base,
                pattern: None,
                documentation: Documentation::with_short_and_url(short, parsed.url.clone()),
                url: parsed.url.clone(),
            },
        )
    }

    /// Parses a complex type document and converts it.
    pub fn process_datatype(&mut self, sd_json: &Json) -> (r: Result<DataType, Error>)
        requires
            old(self).wf(),
        ensures
            final(self).wf(),
            final(self).version() == old(self).version(),
            match r {
                Ok(t) => match parse_spec(*sd_json) {
                    Ok(p) => p.kind == StructureKind::ComplexType && datatype_from(t, p),
                    Err(_) => false,
                },
                Err(e) => match parse_spec(*sd_json) {
                    Ok(p) => p.kind != StructureKind::ComplexType && e is Parser
                        && e->Parser_0@ == p.name + " is not a complex type"@,
                    Err(m) => e is Parser && e->Parser_0@ == m,
                },
            },
    {
        let parsed = match self.parser.parse(sd_json) {
            Ok(p) => p,
            Err(e) => return Err(e),
        };
        self.parser.to_datatype(&parsed)
    }

    /// Parses a resource document and converts it.
    pub fn process_resource(&mut self, sd_json: &Json) -> (r: Result<ResourceType, Error>)
        requires
            old(self).wf(),
        ensures
            final(self).wf(),
            final(self).version() == old(self).version(),
            match r {
                Ok(t) => match parse_spec(*sd_json) {
                    Ok(p) => p.kind == StructureKind::Resource && resource_from(t, p),
                    Err(_) => false,
                },
                Err(e) => match parse_spec(*sd_json) {
                    Ok(p) => p.kind != StructureKind::Resource && e is Parser
                        && e->Parser_0@ == p.name + " is not a resource"@,
                    Err(m) => e is Parser && e->Parser_0@ == m,
                },
            },
    {
        let parsed = match self.parser.parse(sd_json) {
            Ok(p) => p,
            Err(e) => return Err(e),
        };
        self.parser.to_resource_type(&parsed)
    }

    /// Assembles the type graph of `docs`: primitives first, then datatypes,
    /// then resources, each document filed under its name by kind; a
    /// document that fails to convert is left out. Each resource gets the
    /// search parameters among `search_params` whose base lists it.
    pub fn build_graph(
        &mut self,
        docs: &Vec<Json>,
        search_params: &Vec<Json>,
        metadata: GraphMetadata,
    ) -> (r: TypeGraph)
        requires
            old(self).wf(),
        ensures
            final(self).wf(),
            final(self).version() == old(self).version(),
            r.wf(),
            r.fhir_version == old(self).version(),
            r.metadata == metadata,
            r.profiles.spec_entries().len() == 0,
            forall|name: Seq<char>|
                primitive_slot(
                    #[trigger] r.primitives.spec_get(name),
                    docs@,
                    bucket_get(docs@, "primitive-type"@, name),
                ),
            forall|name: Seq<char>|
                datatype_slot(
                    #[trigger] r.datatypes.spec_get(name),
                    docs@,
                    bucket_get(docs@, "complex-type"@, name),
                ),
            forall|name: Seq<char>|
                resource_slot(
                    #[trigger] r.resources.spec_get(name),
                    docs@,
                    search_params@,
                    name,
                    bucket_get(docs@, "resource"@, name),
                ),
    {
        let buckets = categorize_structures(docs);
        let prepared = prepare_search_parameters(search_params);
        let mut graph = TypeGraph::with_metadata(self.fhir_version, metadata);
        let ghost ds = docs@;
        // Primitives first.
        let b = &buckets.primitives;
        let mut i: usize = 0;
        while i < b.len()
            invariant
                self.wf(),
                self.version() == old(self).version(),
                graph.wf(),
                graph.fhir_version == old(self).version(),
                graph.metadata == metadata,
                graph.profiles.spec_entries().len() == 0,
                graph.datatypes.spec_entries().len() == 0,
                graph.resources.spec_entries().len() == 0,
                bucket_holds(*b, ds, "primitive-type"@),
                ds == docs@,
                i <= b.spec_entries().len(),
                forall|name: Seq<char>|
                    b.keys().subrange(0, i as int).contains(name) ==> primitive_slot(
                        #[trigger] graph.primitives.spec_get(name),
                        ds,
                        bucket_get(ds, "primitive-type"@, name),
                    ),
                forall|name: Seq<char>|
                    !b.keys().subrange(0, i as int).contains(name) ==> (
                    #[trigger] graph.primitives.spec_get(name)) is None,
            decreases b.spec_entries().len() - i,
        {
            let name = b.key_at(i);
            let idx = *b.value_at(i);
            proof {
                b.lemma_index_unique(i as int);
                assert(b.keys()[i as int] == name@);
                assert(b.spec_get(name@) == Some(idx));
                assert(bucket_get(ds, "primitive-type"@, name@) == Some(idx as int));
                lemma_bucket_kind(ds, "primitive-type"@, name@);
                lemma_prefix_step(b.keys(), i as int);
            }
            match self.process_primitive(&docs[idx]) {
                Ok(t) => {
                    graph.add_primitive(name.clone(), t);
                },
                Err(_) => {},
            }
            i = i + 1;
        }
        proof {
            assert(b.keys().subrange(0, b.keys().len() as int) =~= b.keys());
            assert forall|name: Seq<char>| primitive_slot(
                #[trigger] graph.primitives.spec_get(name),
                ds,
                bucket_get(ds, "primitive-type"@, name),
            ) by {
                if !b.keys().contains(name) {
                    if b.spec_get(name) is Some {
                        let k = b.index_of(name).unwrap();
                        assert(b.keys()[k] == name);
                    }
                }
            }
        }
        // Then datatypes.
        let b = &buckets.datatypes;
        let mut i: usize = 0;
        while i < b.len()
            invariant
                self.wf(),
                self.version() == old(self).version(),
                graph.wf(),
                graph.fhir_version == old(self).version(),
                graph.metadata == metadata,
                graph.profiles.spec_entries().len() == 0,
                graph.resources.spec_entries().len() == 0,
                forall|name: Seq<char>|
                    primitive_slot(
                        #[trigger] graph.primitives.spec_get(name),
                        ds,
                        bucket_get(ds, "primitive-type"@, name),
                    ),
                bucket_holds(*b, ds, "complex-type"@),
                ds == docs@,
                i <= b.spec_entries().len(),
                forall|name: Seq<char>|
                    b.keys().subrange(0, i as int).contains(name) ==> datatype_slot(
                        #[trigger] graph.datatypes.spec_get(name),
                        ds,
                        bucket_get(ds, "complex-type"@, name),
                    ),
                forall|name: Seq<char>|
                    !b.keys().subrange(0, i as int).contains(name) ==> (
                    #[trigger] graph.datatypes.spec_get(name)) is None,
            decreases b.spec_entries().len() - i,
        {
            let name = b.key_at(i);
            let idx = *b.value_at(i);
            proof {
                b.lemma_index_unique(i as int);
                assert(b.keys()[i as int] == name@);
                assert(b.spec_get(name@) == Some(idx));
                assert(bucket_get(ds, "complex-type"@, name@) == Some(idx as int));
                lemma_bucket_kind(ds, "complex-type"@, name@);
                lemma_prefix_step(b.keys(), i as int);
            }
            match self.process_datatype(&docs[idx]) {
                Ok(t) => {
                    graph.add_datatype(name.clone(), t);
                },
                Err(_) => {},
            }
            i = i + 1;
        }
        proof {
            assert(b.keys().subrange(0, b.keys().len() as int) =~= b.keys());
            assert forall|name: Seq<char>| datatype_slot(
                #[trigger] graph.datatypes.spec_get(name),
                ds,
                bucket_get(ds, "complex-type"@, name),
            ) by {
                if !b.keys().contains(name) {
                    if b.spec_get(name) is Some {
                        let k = b.index_of(name).unwrap();
                        assert(b.keys()[k] == name);
                    }
                }
            }
        }
        // Resources last, with their search parameters.
        let b = &buckets.resources;
        let mut i: usize = 0;
        while i < b.len()
            invariant
                self.wf(),
                self.version() == old(self).version(),
                graph.wf(),
                graph.fhir_version == old(self).version(),
                graph.metadata == metadata,
                graph.profiles.spec_entries().len() == 0,
                prepared_from(prepared@, search_params@),
                forall|name: Seq<char>|
                    primitive_slot(
                        #[trigger] graph.primitives.spec_get(name),
                        ds,
                        bucket_get(ds, "primitive-type"@, name),
                    ),
                forall|name: Seq<char>|
                    datatype_slot(
                        #[trigger] graph.datatypes.spec_get(name),
                        ds,
                        bucket_get(ds, "complex-type"@, name),
                    ),
                bucket_holds(*b, ds, "resource"@),
                ds == docs@,
                i <= b.spec_entries().len(),
                forall|name: Seq<char>|
                    b.keys().subrange(0, i as int).contains(name) ==> resource_slot(
                        #[trigger] graph.resources.spec_get(name),
                        ds,
                        search_params@,
                        name,
                        bucket_get(ds, "resource"@, name),
                    ),
                forall|name: Seq<char>|
                    !b.keys().subrange(0, i as int).contains(name) ==> (
                    #[trigger] graph.resources.spec_get(name)) is None,
            decreases b.spec_entries().len() - i,
        {
            let name = b.key_at(i);
            let idx = *b.value_at(i);
            proof {
                b.lemma_index_unique(i as int);
                assert(b.keys()[i as int] == name@);
                assert(b.spec_get(name@) == Some(idx));
                assert(bucket_get(ds, "resource"@, name@) == Some(idx as int));
                lemma_bucket_kind(ds, "resource"@, name@);
                lemma_prefix_step(b.keys(), i as int);
            }
            match self.process_resource(&docs[idx]) {
                Ok(t) => {
                    let mut t = t;
                    t.search_parameters = search_parameters_for(&prepared, name.as_str(), Ghost(search_params@));
                    graph.add_resource(name.clone(), t);
                },
                Err(_) => {},
            }
            i = i + 1;
        }
        proof {
            assert(b.keys().subrange(0, b.keys().len() as int) =~= b.keys());
            assert forall|name: Seq<char>| resource_slot(
                #[trigger] graph.resources.spec_get(name),
                ds,
                search_params@,
                name,
                bucket_get(ds, "resource"@, name),
            ) by {
                if !b.keys().contains(name) {
                    if b.spec_get(name) is Some {
                        let k = b.index_of(name).unwrap();
                        assert(b.keys()[k] == name);
                    }
                }
            }
        }
        graph
    }
}

} // verus!
