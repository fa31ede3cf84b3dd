//! Language-agnostic intermediate representation of FHIR types.

use vstd::prelude::*;
use crate::json::Json;
use crate::text::str_eq;

verus! {

/// A map from type name to entry that keeps insertion order. Re-inserting a
/// name replaces its entry in place.
#[derive(Debug)]
pub struct TypeMap<V> {
    entries: Vec<(String, V)>,
}

impl<V> TypeMap<V> {
    /// The entries, in insertion order.
    pub closed spec fn spec_entries(&self) -> Seq<(String, V)> {
        self.entries@
    }

    /// The names, in insertion order.
    pub open spec fn keys(&self) -> Seq<Seq<char>> {
        self.spec_entries().map_values(|e: (String, V)| e.0@)
    }

    /// Names are unique.
    pub open spec fn wf(&self) -> bool {
        forall|i: int, j: int|
            0 <= i < j < self.keys().len() ==> self.keys()[i] != self.keys()[j]
    }

    /// Where `k` stands, if it is present.
    pub open spec fn index_of(&self, k: Seq<char>) -> Option<int> {
        if exists|i: int| 0 <= i < self.keys().len() && self.keys()[i] == k {
            Some(choose|i: int| 0 <= i < self.keys().len() && self.keys()[i] == k)
        } else {
            None
        }
    }

    /// The entry stored under `k`.
    pub open spec fn spec_get(&self, k: Seq<char>) -> Option<V> {
        match self.index_of(k) {
            Some(i) => Some(self.spec_entries()[i].1),
            None => None,
        }
    }

    /// An empty map.
    pub fn new() -> (r: Self)
        ensures
            r.wf(),
            r.spec_entries().len() == 0,
    {
        TypeMap { entries: Vec::new() }
    }

    /// The number of entries.
    pub fn len(&self) -> (r: usize)
        ensures
            r == self.spec_entries().len(),
    {
        self.entries.len()
    }

    /// Where `key` stands.
    pub fn position(&self, key: &str) -> (r: Option<usize>)
        requires
            self.wf(),
        ensures
            match r {
                Some(i) => i < self.keys().len() && self.keys()[i as int] == key@,
                None => self.index_of(key@).is_none(),
            },
    {
        let mut i: usize = 0;
        while i < self.entries.len()
            invariant
                i <= self.entries@.len(),
                forall|j: int| 0 <= j < i ==> self.keys()[j] != key@,
            decreases self.entries.len() - i,
        {
            if str_eq(self.entries[i].0.as_str(), key) {
                return Some(i);
            }
            i = i + 1;
        }
        None
    }

    /// Is `key` present?
    pub fn contains_key(&self, key: &str) -> (r: bool)
        requires
            self.wf(),
        ensures
            r == self.keys().contains(key@),
    {
        let r = self.position(key);
        match r {
            Some(i) => {
                assert(self.keys()[i as int] == key@);
                true
            },
            None => false,
        }
    }

    /// The entry stored under `key`.
    pub fn get(&self, key: &str) -> (r: Option<&V>)
        requires
            self.wf(),
        ensures
            r.is_some() == self.keys().contains(key@),
            r.is_some() ==> self.spec_get(key@) == Some(*r.unwrap()),
    {
        match self.position(key) {
            Some(i) => {
                proof { self.lemma_index_unique(i as int); }
                Some(&self.entries[i].1)
            },
            None => None,
        }
    }

    /// The name at position `i` is found at `i`.
    pub proof fn lemma_index_unique(&self, i: int)
        requires
            self.wf(),
            0 <= i < self.keys().len(),
        ensures
            self.index_of(self.keys()[i]) == Some(i),
    {
        let k = self.keys()[i];
        assert(exists|j: int| 0 <= j < self.keys().len() && self.keys()[j] == k);
    }

    /// The name at position `i`.
    pub fn key_at(&self, i: usize) -> (r: &String)
        requires
            i < self.spec_entries().len(),
        ensures
            *r == self.spec_entries()[i as int].0,
    {
        &self.entries[i].0
    }

    /// The entry at position `i`.
    pub fn value_at(&self, i: usize) -> (r: &V)
        requires
            i < self.spec_entries().len(),
        ensures
            *r == self.spec_entries()[i as int].1,
    {
        &self.entries[i].1
    }

    /// Stores `value` under `key`: in place when `key` is present, else at the end.
    pub fn insert(&mut self, key: String, value: V)
        requires
            old(self).wf(),
        ensures
            final(self).wf(),
            old(self).keys().contains(key@) ==> final(self).keys() == old(self).keys(),
            !old(self).keys().contains(key@) ==> final(self).keys() == old(self).keys().push(key@),
            final(self).spec_get(key@) == Some(value),
            forall|k: Seq<char>| k != key@ ==> final(self).spec_get(k) == old(self).spec_get(k),
    {
        match self.position(key.as_str()) {
            Some(i) => {
                proof { self.lemma_index_unique(i as int); }
                let ghost before = self.entries@;
                self.entries.remove(i);
                self.entries.insert(i, (key, value));
                assert(self.keys() =~= old(self).keys());
                proof {
                    self.lemma_index_unique(i as int);
                    assert forall|k: Seq<char>| k != key@ implies self.spec_get(k) == old(self).spec_get(k) by {
                        if old(self).keys().contains(k) {
                            let j = choose|j: int| 0 <= j < old(self).keys().len() && old(self).keys()[j] == k;
                            old(self).lemma_index_unique(j);
                            self.lemma_index_unique(j);
                        }
                    }
                }
            },
            None => {
                self.entries.push((key, value));
                let ghost n = old(self).keys().len();
                assert(self.keys() =~= old(self).keys().push(key@));
                proof {
                    self.lemma_index_unique(n as int);
                    assert forall|k: Seq<char>| k != key@ implies self.spec_get(k) == old(self).spec_get(k) by {
                        if old(self).keys().contains(k) {
                            let j = choose|j: int| 0 <= j < old(self).keys().len() && old(self).keys()[j] == k;
                            old(self).lemma_index_unique(j);
                            self.lemma_index_unique(j);
                        } else {
                            assert(!self.keys().contains(k));
                        }
                    }
                }
            },
        }
    }

    /// The entries, in insertion order.
    pub fn into_entries(self) -> (r: Vec<(String, V)>)
        ensures
            r@ == self.spec_entries(),
    {
        self.entries
    }

    /// Stores every entry of `other`, in its order: a name of `other`
    /// gets its entry from `other`, any other name keeps its own.
    pub fn merge_from(&mut self, other: TypeMap<V>)
        requires
            old(self).wf(),
            other.wf(),
        ensures
            final(self).wf(),
            forall|k: Seq<char>|
                #[trigger] final(self).spec_get(k) == if other.keys().contains(k) {
                    other.spec_get(k)
                } else {
                    old(self).spec_get(k)
                },
    {
        let ghost o = other;
        let ghost n = other.keys().len();
        let mut rest = other.into_entries();
        let ghost mut j: int = 0;
        while rest.len() > 0
            invariant
                self.wf(),
                o.wf(),
                n == o.keys().len(),
                0 <= j <= n,
                rest@ == o.spec_entries().subrange(j, n as int),
                forall|k: Seq<char>|
                    #[trigger] self.spec_get(k) == if o.keys().subrange(0, j).contains(k) {
                        o.spec_get(k)
                    } else {
                        old(self).spec_get(k)
                    },
            decreases rest.len(),
        {
            let (k, v) = rest.remove(0);
            proof {
                assert(o.spec_entries()[j] == (k, v));
                assert(o.keys()[j] == k@);
                o.lemma_index_unique(j);
                lemma_prefix_step(o.keys(), j);
            }
            self.insert(k, v);
            proof {
                j = j + 1;
                assert(rest@ =~= o.spec_entries().subrange(j, n as int));
            }
        }
        proof {
            assert(j == n);
            assert(o.keys().subrange(0, j) =~= o.keys());
        }
    }

    /// Keeps the entries whose name is listed in `names` when `keep_listed`
    /// holds, else those whose name is not listed; order is kept.
    pub fn retain_names(&mut self, names: &Vec<String>, keep_listed: bool)
        requires
            old(self).wf(),
        ensures
            final(self).wf(),
            forall|k: Seq<char>|
                #[trigger] final(self).spec_get(k) == if names@.map_values(|s: String| s@).contains(k)
                    == keep_listed {
                    old(self).spec_get(k)
                } else {
                    None
                },
    {
        let ghost o = *self;
        let ghost n = o.keys().len();
        let ghost listed = names@.map_values(|s: String| s@);
        let mut rest = self.entries.split_off(0);
        assert(rest@ =~= o.spec_entries());
        let ghost mut j: int = 0;
        assert(self.keys() =~= Seq::<Seq<char>>::empty());
        while rest.len() > 0
            invariant
                self.wf(),
                o.wf(),
                n == o.keys().len(),
                0 <= j <= n,
                listed == names@.map_values(|s: String| s@),
                rest@ == o.spec_entries().subrange(j, n as int),
                forall|k: Seq<char>|
                    #[trigger] self.spec_get(k) == if o.keys().subrange(0, j).contains(k)
                        && listed.contains(k) == keep_listed {
                        o.spec_get(k)
                    } else {
                        None
                    },
            decreases rest.len(),
        {
            let (k, v) = rest.remove(0);
            proof {
                assert(o.spec_entries()[j] == (k, v));
                assert(o.keys()[j] == k@);
                o.lemma_index_unique(j);
                lemma_prefix_step(o.keys(), j);
            }
            let listed_here = names_contain(names, k.as_str());
            if listed_here == keep_listed {
                self.insert(k, v);
            }
            proof {
                j = j + 1;
                assert(rest@ =~= o.spec_entries().subrange(j, n as int));
            }
        }
        proof {
            assert(o.keys().subrange(0, j) =~= o.keys());
            assert forall|k: Seq<char>| #[trigger] self.spec_get(k) == if listed.contains(k) == keep_listed {
                o.spec_get(k)
            } else {
                None
            } by {
                if !o.keys().contains(k) {
                    if o.index_of(k) is Some {
                        let i = o.index_of(k).unwrap();
                        assert(o.keys()[i] == k);
                    }
                }
            }
        }
    }

    /// Replaces the entry at position `i` and hands back the one it held.
    pub fn replace_at(&mut self, i: usize, value: V) -> (r: V)
        requires
            i < old(self).spec_entries().len(),
        ensures
            r == old(self).spec_entries()[i as int].1,
            final(self).spec_entries() == old(self).spec_entries().update(
                i as int,
                (old(self).spec_entries()[i as int].0, value),
            ),
    {
        let (k, v) = self.entries.remove(i);
        self.entries.insert(i, (k, value));
        assert(self.entries@ =~= old(self).entries@.update(i as int, (old(self).entries@[i as int].0, value)));
        v
    }
}

/// Whether `name` is among `names`.
pub fn names_contain(names: &Vec<String>, name: &str) -> (r: bool)
    ensures
        r == names@.map_values(|s: String| s@).contains(name@),
{
    let mut i: usize = 0;
    while i < names.len()
        invariant
            i <= names@.len(),
            forall|j: int| 0 <= j < i ==> names@[j]@ != name@,
        decreases names.len() - i,
    {
        if str_eq(names[i].as_str(), name) {
            assert(names@.map_values(|s: String| s@)[i as int] == name@);
            return true;
        }
        i = i + 1;
    }
    proof {
        let listed = names@.map_values(|s: String| s@);
        if listed.contains(name@) {
            let j = choose|j: int| 0 <= j < listed.len() && #[trigger] listed[j] == name@;
            assert(names@[j]@ == name@);
        }
    }
    false
}

/// Extending a prefix of unique names by one adds exactly the next name,
/// which the shorter prefix lacks.
pub proof fn lemma_prefix_step(keys: Seq<Seq<char>>, i: int)
    requires
        0 <= i < keys.len(),
        forall|a: int, c: int| 0 <= a < c < keys.len() ==> keys[a] != keys[c],
    ensures
        !keys.subrange(0, i).contains(keys[i]),
        forall|n: Seq<char>|
            #![trigger keys.subrange(0, i + 1).contains(n)]
            keys.subrange(0, i + 1).contains(n) <==> (keys.subrange(0, i).contains(n) || n == keys[i]),
{
    if keys.subrange(0, i).contains(keys[i]) {
        let j = choose|j: int| 0 <= j < i && #[trigger] keys.subrange(0, i)[j] == keys[i];
        assert(keys[j] == keys[i]);
    }
    assert forall|n: Seq<char>|
        keys.subrange(0, i + 1).contains(n) <==> (keys.subrange(0, i).contains(n) || n == keys[i]) by {
        if keys.subrange(0, i + 1).contains(n) {
            let j = choose|j: int| 0 <= j < i + 1 && #[trigger] keys.subrange(0, i + 1)[j] == n;
            if j < i {
                assert(keys.subrange(0, i)[j] == n);
            }
        }
        if keys.subrange(0, i).contains(n) {
            let j = choose|j: int| 0 <= j < i && #[trigger] keys.subrange(0, i)[j] == n;
            assert(keys.subrange(0, i + 1)[j] == n);
        }
        if n == keys[i] {
            assert(keys.subrange(0, i + 1)[i] == n);
        }
    }
}

/// FHIR version.
#[derive(Debug, Clone, Copy, PartialEq, Eq, Structural, Hash)]
pub enum FhirVersion {
    /// FHIR R4 (4.0.x)
    R4,
    /// FHIR R4B (4.3.x)
    R4B,
    /// FHIR R5 (5.0.x)
    R5,
    /// FHIR R6 (6.0.x)
    R6,
}

/// The label of a FHIR version.
pub open spec fn version_label(v: FhirVersion) -> Seq<char> {
    match v {
        FhirVersion::R4 => seq!['R', '4'],
        FhirVersion::R4B => seq!['R', '4', 'B'],
        FhirVersion::R5 => seq!['R', '5'],
        FhirVersion::R6 => seq!['R', '6'],
    }
}

impl FhirVersion {
    /// The label of this version ("R4", "R4B", "R5", "R6").
    pub fn to_string(&self) -> (r: String)
        ensures
            r@ == version_label(*self),
    {
        let s = match self {
            FhirVersion::R4 => "R4",
            FhirVersion::R4B => "R4B",
            FhirVersion::R5 => "R5",
            FhirVersion::R6 => "R6",
        };
        proof {
            reveal_strlit("R4");
            reveal_strlit("R4B");
            reveal_strlit("R5");
            reveal_strlit("R6");
        }
        let r = s.to_owned();
        assert(r@ =~= version_label(*self));
        r
    }
}

/// Metadata about the type graph.
#[derive(Debug)]
pub struct GraphMetadata {
    /// When this graph was generated
    pub generated_at: String,
    /// Generator version
    pub generator_version: String,
    /// Source packages
    pub source_packages: Vec<String>,
    /// Custom metadata
    pub custom: Vec<(String, Json)>,
}

/// The version of this generator, recorded in graph metadata.
pub const GENERATOR_VERSION: &'static str = "0.1.0";

/// Relies on chrono's `DateTime::<Utc>::from_timestamp` and
/// `DateTime::to_rfc3339`: the UTC time `secs` seconds and `nanos`
/// nanoseconds after the Unix epoch as RFC 3339 text, or `None` where chrono
/// cannot represent that time. The text always holds at least the date.
#[verifier::external_body]
fn rfc3339_at(secs: i64, nanos: u32) -> (r: Option<String>)
    ensures
        r is Some ==> r->Some_0@.len() > 0,
{
    match chrono::DateTime::from_timestamp(secs, nanos) {
        Some(t) => Some(t.to_rfc3339()),
        None => None,
    }
}

impl GraphMetadata {
    /// Metadata generated at `generated_at` by this generator's version, with
    /// no source packages and no custom entries.
    pub fn new(generated_at: String) -> (r: Self)
        ensures
            r.generated_at == generated_at,
            r.generator_version@ == GENERATOR_VERSION@,
            r.source_packages@.len() == 0,
            r.custom@.len() == 0,
    {
        GraphMetadata {
            generated_at,
            generator_version: GENERATOR_VERSION.to_owned(),
            source_packages: Vec::new(),
            custom: Vec::new(),
        }
    }

    /// Metadata stamped with the UTC time `secs` seconds and `nanos`
    /// nanoseconds after the Unix epoch, in RFC 3339 form; `None` where that
    /// time cannot be written.
    pub fn stamped_at(secs: i64, nanos: u32) -> (r: Option<Self>)
        ensures
            r is Some ==> r->Some_0.generated_at@.len() > 0,
            r is Some ==> r->Some_0.generator_version@ == GENERATOR_VERSION@,
            r is Some ==> r->Some_0.source_packages@.len() == 0,
            r is Some ==> r->Some_0.custom@.len() == 0,
    {
        match rfc3339_at(secs, nanos) {
            Some(t) => Some(GraphMetadata::new(t)),
            None => None,
        }
    }
}

/// Complete type graph of one FHIR version: resources, datatypes, primitives
/// and profiles, each map keyed by type name.
#[derive(Debug)]
pub struct TypeGraph {
    /// Resource definitions (e.g., Patient, Observation)
    pub resources: TypeMap<ResourceType>,
    /// Complex datatype definitions (e.g., HumanName, Address)
    pub datatypes: TypeMap<DataType>,
    /// Primitive type definitions (e.g., string, boolean, date)
    pub primitives: TypeMap<PrimitiveType>,
    /// Profile definitions (e.g., USCorePatient)
    pub profiles: TypeMap<ProfileType>,
    /// FHIR version this graph represents
    pub fhir_version: FhirVersion,
    /// Metadata about generation
    pub metadata: GraphMetadata,
}

impl TypeGraph {
    /// Each map has unique names.
    pub open spec fn wf(&self) -> bool {
        &&& self.resources.wf()
        &&& self.datatypes.wf()
        &&& self.primitives.wf()
        &&& self.profiles.wf()
    }

    /// The number of entries over the four maps.
    pub open spec fn spec_total(&self) -> nat {
        self.resources.spec_entries().len() + self.datatypes.spec_entries().len()
            + self.primitives.spec_entries().len() + self.profiles.spec_entries().len()
    }

    /// An empty graph for `fhir_version` whose metadata has no generation
    /// time yet.
    pub fn new(fhir_version: FhirVersion) -> (r: Self)
        ensures
            r.wf(),
            r.spec_total() == 0,
            r.fhir_version == fhir_version,
            r.metadata.generated_at@.len() == 0,
            r.metadata.generator_version@ == GENERATOR_VERSION@,
            r.metadata.source_packages@.len() == 0,
            r.metadata.custom@.len() == 0,
    {
        TypeGraph::with_metadata(fhir_version, GraphMetadata::new(String::new()))
    }

    /// An empty graph for `fhir_version` with the given metadata.
    pub fn with_metadata(fhir_version: FhirVersion, metadata: GraphMetadata) -> (r: Self)
        ensures
            r.wf(),
            r.spec_total() == 0,
            r.fhir_version == fhir_version,
            r.metadata == metadata,
    {
        TypeGraph {
            resources: TypeMap::new(),
            datatypes: TypeMap::new(),
            primitives: TypeMap::new(),
            profiles: TypeMap::new(),
            fhir_version,
            metadata,
        }
    }

    /// Adds a resource under `name`.
    pub fn add_resource(&mut self, name: String, resource: ResourceType)
        requires
            old(self).wf(),
        ensures
            final(self).wf(),
            final(self).resources.spec_get(name@) == Some(resource),
            forall|k: Seq<char>| k != name@ ==> final(self).resources.spec_get(k) == old(self).resources.spec_get(k),
            old(self).resources.keys().contains(name@) ==> final(self).resources.keys() == old(self).resources.keys(),
            !old(self).resources.keys().contains(name@) ==> final(self).resources.keys() == old(self).resources.keys().push(name@),
            final(self).datatypes == old(self).datatypes,
            final(self).primitives == old(self).primitives,
            final(self).profiles == old(self).profiles,
            final(self).fhir_version == old(self).fhir_version,
            final(self).metadata == old(self).metadata,
    {
        self.resources.insert(name, resource);
    }

    /// Adds a datatype under `name`.
    pub fn add_datatype(&mut self, name: String, datatype: DataType)
        requires
            old(self).wf(),
        ensures
            final(self).wf(),
            final(self).datatypes.spec_get(name@) == Some(datatype),
            forall|k: Seq<char>| k != name@ ==> final(self).datatypes.spec_get(k) == old(self).datatypes.spec_get(k),
            old(self).datatypes.keys().contains(name@) ==> final(self).datatypes.keys() == old(self).datatypes.keys(),
            !old(self).datatypes.keys().contains(name@) ==> final(self).datatypes.keys() == old(self).datatypes.keys().push(name@),
            final(self).resources == old(self).resources,
            final(self).primitives == old(self).primitives,
            final(self).profiles == old(self).profiles,
            final(self).fhir_version == old(self).fhir_version,
            final(self).metadata == old(self).metadata,
    {
        self.datatypes.insert(name, datatype);
    }

    /// Adds a primitive under `name`.
    pub fn add_primitive(&mut self, name: String, primitive: PrimitiveType)
        requires
            old(self).wf(),
        ensures
            final(self).wf(),
            final(self).primitives.spec_get(name@) == Some(primitive),
            forall|k: Seq<char>| k != name@ ==> final(self).primitives.spec_get(k) == old(self).primitives.spec_get(k),
            old(self).primitives.keys().contains(name@) ==> final(self).primitives.keys() == old(self).primitives.keys(),
            !old(self).primitives.keys().contains(name@) ==> final(self).primitives.keys() == old(self).primitives.keys().push(name@),
            final(self).resources == old(self).resources,
            final(self).datatypes == old(self).datatypes,
            final(self).profiles == old(self).profiles,
            final(self).fhir_version == old(self).fhir_version,
            final(self).metadata == old(self).metadata,
    {
        self.primitives.insert(name, primitive);
    }

    /// Adds a profile under `name`.
    pub fn add_profile(&mut self, name: String, profile: ProfileType)
        requires
            old(self).wf(),
        ensures
            final(self).wf(),
            final(self).profiles.spec_get(name@) == Some(profile),
            forall|k: Seq<char>| k != name@ ==> final(self).profiles.spec_get(k) == old(self).profiles.spec_get(k),
            old(self).profiles.keys().contains(name@) ==> final(self).profiles.keys() == old(self).profiles.keys(),
            !old(self).profiles.keys().contains(name@) ==> final(self).profiles.keys() == old(self).profiles.keys().push(name@),
            final(self).resources == old(self).resources,
            final(self).datatypes == old(self).datatypes,
            final(self).primitives == old(self).primitives,
            final(self).fhir_version == old(self).fhir_version,
            final(self).metadata == old(self).metadata,
    {
        self.profiles.insert(name, profile);
    }

    /// The number of types over the four maps.
    pub fn total_types(&self) -> (r: usize)
        requires
            self.spec_total() <= usize::MAX,
        ensures
            r == self.spec_total(),
    {
        self.resources.len() + self.datatypes.len() + self.primitives.len() + self.profiles.len()
    }
}

/// FHIR resource type (e.g., Patient, Observation).
#[derive(Debug)]
pub struct ResourceType {
    /// Resource name (e.g., "Patient")
    pub name: String,
    /// Base resource this extends (e.g., Some("DomainResource"))
    pub base: Option<String>,
    /// Properties/elements of this resource
    pub properties: Vec<Property>,
    /// Search parameters defined for this resource
    pub search_parameters: Vec<SearchParameter>,
    /// Documentation
    pub documentation: Documentation,
    /// Canonical URL
    pub url: String,
    /// Is this an abstract type?
    pub is_abstract: bool,
}

/// FHIR complex datatype (e.g., HumanName, Address).
#[derive(Debug)]
pub struct DataType {
    /// Datatype name (e.g., "HumanName")
    pub name: String,
    /// Base type this extends (if any)
    pub base: Option<String>,
    /// Properties of this datatype
    pub properties: Vec<Property>,
    /// Documentation
    pub documentation: Documentation,
    /// Canonical URL
    pub url: String,
    /// Is this an abstract type?
    pub is_abstract: bool,
}

/// FHIR primitive type (e.g., string, boolean, date).
#[derive(Debug)]
pub struct PrimitiveType {
    /// Primitive name (e.g., "string", "boolean")
    pub name: String,
    /// Base primitive
    pub base: Option<String>,
    /// Regex pattern for validation (if any)
    pub pattern: Option<String>,
    /// Documentation
    pub documentation: Documentation,
    /// Canonical URL
    pub url: String,
}

/// FHIR profile (constraint on a resource or datatype).
#[derive(Debug)]
pub struct ProfileType {
    /// Profile name (e.g., "USCorePatient")
    pub name: String,
    /// Base type being constrained (e.g., "Patient")
    pub base: String,
    /// Additional constraints on properties
    pub property_constraints: Vec<PropertyConstraint>,
    /// New properties added by this profile
    pub new_properties: Vec<Property>,
    /// Documentation
    pub documentation: Documentation,
    /// Canonical URL
    pub url: String,
}

/// Property constraint in a profile.
#[derive(Debug)]
pub struct PropertyConstraint {
    /// Path to the property being constrained
    pub path: String,
    /// New cardinality (if changed)
    pub cardinality: Option<CardinalityRange>,
    /// New type constraints
    pub type_constraints: Vec<String>,
    /// New binding (if changed)
    pub binding: Option<ValueSetBinding>,
    /// Must support flag
    pub must_support: bool,
}

/// A property (field/element) of a resource or datatype.
#[derive(Debug)]
pub struct Property {
    /// Property name (e.g., "name", "birthDate")
    pub name: String,
    /// FHIR element path (e.g., "Patient.name")
    pub path: String,
    /// Type of this property
    pub property_type: PropertyType,
    /// Cardinality (min..max)
    pub cardinality: CardinalityRange,
    /// Is this a choice element? (e.g., value[x])
    pub is_choice: bool,
    /// If choice, what are the possible types?
    pub choice_types: Vec<String>,
    /// Is this a modifier element?
    pub is_modifier: bool,
    /// Is this a summary element?
    pub is_summary: bool,
    /// Terminology binding (if any)
    pub binding: Option<ValueSetBinding>,
    /// Constraints/invariants
    pub constraints: Vec<InvariantRule>,
    /// Short description
    pub short_description: String,
    /// Full definition
    pub definition: String,
    /// Comments
    pub comments: Option<String>,
    /// Example values
    pub examples: Vec<Example>,
}

/// Type of a property: a closed set of shapes.
#[derive(Debug)]
pub enum PropertyType {
    /// Primitive type (e.g., "string", "boolean")
    Primitive { name: String },
    /// Complex type (e.g., "HumanName", "Address")
    Complex { name: String },
    /// Reference to resources (empty = any resource)
    Reference { target_types: Vec<String> },
    /// Backbone element (inline complex type)
    BackboneElement { properties: Vec<Property> },
    /// Choice type (one of several types)
    Choice { types: Vec<String> },
}

impl PropertyType {
    /// The type name of a primitive or complex type.
    pub fn simple_type_name(&self) -> (r: Option<&str>)
        ensures
            match *self {
                PropertyType::Primitive { name } => r.is_some() && r.unwrap()@ == name@,
                PropertyType::Complex { name } => r.is_some() && r.unwrap()@ == name@,
                _ => r.is_none(),
            },
    {
        match self {
            PropertyType::Primitive { name } => Some(name.as_str()),
            PropertyType::Complex { name } => Some(name.as_str()),
            _ => None,
        }
    }
}

/// Cardinality range (min..max); `max == None` means unbounded.
#[derive(Debug, Clone, Copy, PartialEq, Eq, Structural)]
pub struct CardinalityRange {
    /// Minimum occurrences
    pub min: u32,
    /// Maximum occurrences (None = unbounded)
    pub max: Option<u32>,
}

impl CardinalityRange {
    /// The bounds are consistent: a maximum, when present, is at least the
    /// minimum.
    pub open spec fn spec_is_valid(self) -> bool {
        match self.max {
            None => true,
            Some(m) => self.min <= m,
        }
    }

    /// Are the bounds consistent?
    pub fn is_valid(&self) -> (r: bool)
        ensures
            r == self.spec_is_valid(),
    {
        match self.max {
            None => true,
            Some(m) => self.min <= m,
        }
    }

    /// The range holds at least one value.
    pub open spec fn spec_is_required(self) -> bool {
        self.min >= 1
    }

    /// The range allows more than one value.
    pub open spec fn spec_is_array(self) -> bool {
        match self.max {
            None => true,
            Some(m) => m > 1,
        }
    }

    /// The range allows no value at all.
    pub open spec fn spec_is_optional(self) -> bool {
        self.min == 0
    }

    /// A required single value (1..1).
    pub fn required() -> (r: Self)
        ensures
            r == range_of(1, Some(1)),
    {
        CardinalityRange { min: 1, max: Some(1) }
    }

    /// An optional single value (0..1).
    pub fn optional() -> (r: Self)
        ensures
            r == range_of(0, Some(1)),
    {
        CardinalityRange { min: 0, max: Some(1) }
    }

    /// A required array (1..*).
    pub fn required_array() -> (r: Self)
        ensures
            r == range_of(1, None),
    {
        CardinalityRange { min: 1, max: None }
    }

    /// An optional array (0..*).
    pub fn optional_array() -> (r: Self)
        ensures
            r == range_of(0, None),
    {
        CardinalityRange { min: 0, max: None }
    }

    /// Is this property required?
    pub fn is_required(&self) -> (r: bool)
        ensures
            r == self.spec_is_required(),
    {
        self.min >= 1
    }

    /// Is this property an array?
    pub fn is_array(&self) -> (r: bool)
        ensures
            r == self.spec_is_array(),
    {
        match self.max {
            None => true,
            Some(m) => m > 1,
        }
    }

    /// Is this property optional?
    pub fn is_optional(&self) -> (r: bool)
        ensures
            r == self.spec_is_optional(),
    {
        self.min == 0
    }
}

/// ValueSet binding for coded elements.
#[derive(Debug)]
pub struct ValueSetBinding {
    /// Binding strength
    pub strength: BindingStrength,
    /// ValueSet canonical URL
    pub value_set: String,
    /// Description
    pub description: Option<String>,
}

/// Binding strength.
#[derive(Debug, Clone, Copy, PartialEq, Eq, Structural)]
pub enum BindingStrength {
    /// Required (must use)
    Required,
    /// Extensible (should use)
    Extensible,
    /// Preferred (could use)
    Preferred,
    /// Example (may use)
    Example,
}

/// Invariant constraint rule.
#[derive(Debug)]
pub struct InvariantRule {
    /// Invariant key (e.g., "pat-1")
    pub key: String,
    /// Severity
    pub severity: ConstraintSeverity,
    /// Human description
    pub human: String,
    /// FHIRPath expression
    pub expression: Option<String>,
    /// XPath expression (legacy)
    pub xpath: Option<String>,
}

/// Constraint severity.
#[derive(Debug, Clone, Copy, PartialEq, Eq, Structural)]
pub enum ConstraintSeverity {
    /// Error (must satisfy)
    Error,
    /// Warning (should satisfy)
    Warning,
}

/// Example value.
#[derive(Debug)]
pub struct Example {
    /// Example label
    pub label: String,
    /// Example value
    pub value: Json,
}

/// Documentation for types and properties.
#[derive(Debug)]
pub struct Documentation {
    /// Short description
    pub short: String,
    /// Full definition
    pub definition: String,
    /// Comments
    pub comments: Option<String>,
    /// Requirements
    pub requirements: Option<String>,
    /// Usage notes
    pub usage_notes: Vec<String>,
    /// Canonical URL
    pub url: Option<String>,
}

impl Documentation {
    /// Documentation with a short text and a URL, everything else empty.
    pub fn with_short_and_url(short: String, url: String) -> (r: Self)
        ensures
            r.short == short,
            r.definition@.len() == 0,
            r.comments.is_none(),
            r.requirements.is_none(),
            r.usage_notes@.len() == 0,
            r.url == Some(url),
    {
        Documentation {
            short,
            definition: String::new(),
            comments: None,
            requirements: None,
            usage_notes: Vec::new(),
            url: Some(url),
        }
    }
}

/// Search parameter definition.
#[derive(Debug)]
pub struct SearchParameter {
    /// Parameter name/code
    pub code: String,
    /// Parameter type
    pub param_type: SearchParamType,
    /// Description
    pub description: String,
    /// FHIRPath expression
    pub expression: Option<String>,
    /// Target resource types (for reference params)
    pub target_types: Vec<String>,
}

/// Copies a list of strings.
pub fn copy_strings(v: &Vec<String>) -> (r: Vec<String>)
    ensures
        r@ == v@,
{
    let mut r: Vec<String> = Vec::new();
    let mut i: usize = 0;
    while i < v.len()
        invariant
            i <= v@.len(),
            r@ == v@.subrange(0, i as int),
        decreases v.len() - i,
    {
        r.push(v[i].clone());
        assert(r@ =~= v@.subrange(0, i + 1));
        i = i + 1;
    }
    assert(v@.subrange(0, v@.len() as int) =~= v@);
    r
}

/// Copies an optional string.
pub fn copy_opt_string(v: &Option<String>) -> (r: Option<String>)
    ensures
        r == *v,
{
    match v {
        Some(s) => Some(s.clone()),
        None => None,
    }
}

/// The values a search parameter holds.
pub struct SearchParamView {
    pub code: Seq<char>,
    pub param_type: SearchParamType,
    pub description: Seq<char>,
    pub expression: Option<Seq<char>>,
    pub target_types: Seq<Seq<char>>,
}

impl View for SearchParameter {
    type V = SearchParamView;

    open spec fn view(&self) -> SearchParamView {
        SearchParamView {
            code: self.code@,
            param_type: self.param_type,
            description: self.description@,
            expression: match self.expression {
                Some(s) => Some(s@),
                None => None,
            },
            target_types: self.target_types@.map_values(|s: String| s@),
        }
    }
}

impl SearchParameter {
    /// A copy with the same view.
    pub fn copy(&self) -> (r: Self)
        ensures
            r@ == self@,
    {
        let r = SearchParameter {
            code: self.code.clone(),
            param_type: self.param_type,
            description: self.description.clone(),
            expression: copy_opt_string(&self.expression),
            target_types: copy_strings(&self.target_types),
        };
        assert(r@.target_types =~= self@.target_types);
        r
    }
}

/// Search parameter type.
#[derive(Debug, Clone, Copy, PartialEq, Eq, Structural)]
pub enum SearchParamType {
    /// Number
    Number,
    /// Date/DateTime
    Date,
    /// String
    String,
    /// Token
    Token,
    /// Reference
    Reference,
    /// Composite
    Composite,
    /// Quantity
    Quantity,
    /// URI
    Uri,
    /// Special
    Special,
}

/// The range `min..max` (`None` = unbounded).
pub open spec fn range_of(min: u32, max: Option<u32>) -> CardinalityRange {
    CardinalityRange { min, max }
}

/// The predicates of a bounded range follow its bounds, and the four named
/// ranges are 0..1, 1..1, 0..* and 1..* with the predicates that follow.
pub proof fn lemma_cardinality_predicates(c: CardinalityRange, m: u32)
    requires
        c.max == Some(m),
    ensures
        c.spec_is_required() == (c.min >= 1),
        c.spec_is_array() == (m > 1),
        c.spec_is_optional() == (c.min == 0),
        !range_of(0, Some(1)).spec_is_required(),
        !range_of(0, Some(1)).spec_is_array(),
        range_of(0, Some(1)).spec_is_optional(),
        range_of(1, Some(1)).spec_is_required(),
        !range_of(1, Some(1)).spec_is_array(),
        !range_of(1, Some(1)).spec_is_optional(),
        !range_of(0, None).spec_is_required(),
        range_of(0, None).spec_is_array(),
        range_of(0, None).spec_is_optional(),
        range_of(1, None).spec_is_required(),
        range_of(1, None).spec_is_array(),
        !range_of(1, None).spec_is_optional(),
{
}

} // verus!
