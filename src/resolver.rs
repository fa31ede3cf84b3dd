//! The resolver's caches and decisions: resolved documents by canonical URL
//! and primitive checks by type code, each cache on its own so that each can
//! be guarded on its own. The lookups themselves are made by the caller,
//! which stores what came back.

use vstd::prelude::*;
use crate::ir::TypeMap;
use crate::json::{str_field, Json};
use crate::text::str_eq;

verus! {

/// Base of the canonical URLs of the core FHIR types.
pub const CORE_TYPE_BASE: &'static str = "http://hl7.org/fhir/StructureDefinition/";

/// The number of entries of each cache.
#[derive(Debug, Clone, Copy, PartialEq, Eq, Structural)]
pub struct CacheStats {
    pub type_cache_size: usize,
    pub primitive_cache_size: usize,
}

/// The canonical URL of core type `type_code`.
pub open spec fn core_type_url(type_code: Seq<char>) -> Seq<char> {
    CORE_TYPE_BASE@ + type_code
}

/// Whether a resolved document describes a primitive type: its `kind` is
/// `primitive-type` (a missing kind counts as a complex type).
pub open spec fn describes_primitive(doc: Json) -> bool {
    str_field(doc, "kind"@) == Some("primitive-type"@)
}

/// The canonical URL of core type `type_code`.
pub fn core_type_url_of(type_code: &str) -> (r: String)
    ensures
        r@ == core_type_url(type_code@),
{
    let mut r = CORE_TYPE_BASE.to_owned();
    r.append(type_code);
    r
}

/// Does a resolved document describe a primitive type?
pub fn is_primitive_document(doc: &Json) -> (r: bool)
    ensures
        r == describes_primitive(*doc),
{
    match doc.str_member("kind") {
        Some(k) => str_eq(k, "primitive-type"),
        None => {
            proof {
                reveal_strlit("complex-type");
            }
            false
        },
    }
}

/// Resolved documents by canonical URL.
pub struct DocumentCache {
    documents: TypeMap<Json>,
}

impl DocumentCache {
    /// The cached documents.
    pub closed spec fn document_map(&self) -> TypeMap<Json> {
        self.documents
    }

    /// The cache has unique keys.
    pub open spec fn wf(&self) -> bool {
        self.document_map().wf()
    }

    /// An empty cache.
    pub fn new() -> (r: Self)
        ensures
            r.wf(),
            r.document_map().spec_entries().len() == 0,
    {
        DocumentCache { documents: TypeMap::new() }
    }

    /// The cached document of `canonical_url`.
    pub fn cached_document(&self, canonical_url: &str) -> (r: Option<&Json>)
        requires
            self.wf(),
        ensures
            r.is_some() == self.document_map().keys().contains(canonical_url@),
            r.is_some() ==> self.document_map().spec_get(canonical_url@) == Some(*r.unwrap()),
    {
        self.documents.get(canonical_url)
    }

    /// Caches the document resolved for `canonical_url`.
    pub fn store_document(&mut self, canonical_url: String, doc: Json)
        requires
            old(self).wf(),
        ensures
            final(self).wf(),
            final(self).document_map().spec_get(canonical_url@) == Some(doc),
            forall|k: Seq<char>| k != canonical_url@ ==> final(self).document_map().spec_get(k)
                == old(self).document_map().spec_get(k),
    {
        self.documents.insert(canonical_url, doc);
    }

    /// Empties the cache.
    pub fn clear(&mut self)
        ensures
            final(self).wf(),
            final(self).document_map().spec_entries().len() == 0,
    {
        self.documents = TypeMap::new();
    }

    /// The number of cached documents.
    pub fn len(&self) -> (r: usize)
        ensures
            r == self.document_map().spec_entries().len(),
    {
        self.documents.len()
    }
}

/// Primitive checks by type code.
pub struct PrimitiveCache {
    primitives: TypeMap<bool>,
}

impl PrimitiveCache {
    /// The cached checks.
    pub closed spec fn primitive_map(&self) -> TypeMap<bool> {
        self.primitives
    }

    /// The cache has unique keys.
    pub open spec fn wf(&self) -> bool {
        self.primitive_map().wf()
    }

    /// An empty cache.
    pub fn new() -> (r: Self)
        ensures
            r.wf(),
            r.primitive_map().spec_entries().len() == 0,
    {
        PrimitiveCache { primitives: TypeMap::new() }
    }

    /// The cached primitive check of `type_code`.
    pub fn cached_primitive(&self, type_code: &str) -> (r: Option<bool>)
        requires
            self.wf(),
        ensures
            r == self.primitive_map().spec_get(type_code@),
    {
        match self.primitives.get(type_code) {
            Some(b) => Some(*b),
            None => {
                proof {
                    if self.primitive_map().index_of(type_code@) is Some {
                        let i = self.primitive_map().index_of(type_code@).unwrap();
                        assert(self.primitive_map().keys()[i] == type_code@);
                    }
                }
                None
            },
        }
    }

    /// Caches the primitive check of `type_code`.
    pub fn store_primitive(&mut self, type_code: String, is_primitive: bool)
        requires
            old(self).wf(),
        ensures
            final(self).wf(),
            final(self).primitive_map().spec_get(type_code@) == Some(is_primitive),
            forall|k: Seq<char>| k != type_code@ ==> final(self).primitive_map().spec_get(k)
                == old(self).primitive_map().spec_get(k),
    {
        self.primitives.insert(type_code, is_primitive);
    }

    /// Empties the cache.
    pub fn clear(&mut self)
        ensures
            final(self).wf(),
            final(self).primitive_map().spec_entries().len() == 0,
    {
        self.primitives = TypeMap::new();
    }

    /// The number of cached checks.
    pub fn len(&self) -> (r: usize)
        ensures
            r == self.primitive_map().spec_entries().len(),
    {
        self.primitives.len()
    }
}

/// What a primitive check does next: answer from the cache, or resolve the
/// core type's canonical URL.
#[derive(Debug)]
pub enum PrimitiveStep {
    Known(bool),
    Resolve(String),
}

/// The next step of checking whether `type_code` is primitive.
pub fn primitive_step(cache: &PrimitiveCache, type_code: &str) -> (r: PrimitiveStep)
    requires
        cache.wf(),
    ensures
        match cache.primitive_map().spec_get(type_code@) {
            Some(b) => r == PrimitiveStep::Known(b),
            None => r is Resolve && r->Resolve_0@ == core_type_url(type_code@),
        },
{
    match cache.cached_primitive(type_code) {
        Some(b) => PrimitiveStep::Known(b),
        None => PrimitiveStep::Resolve(core_type_url_of(type_code)),
    }
}

/// Finishes a primitive check with what resolving gave: a resolved document
/// decides by its kind and the answer is cached; an unresolved type counts
/// as complex and nothing is cached.
pub fn record_primitive(cache: &mut PrimitiveCache, type_code: String, resolved: Option<&Json>) -> (r: bool)
    requires
        old(cache).wf(),
    ensures
        final(cache).wf(),
        r == match resolved {
            Some(d) => describes_primitive(*d),
            None => false,
        },
        resolved is Some ==> final(cache).primitive_map().spec_get(type_code@) == Some(r),
        resolved is Some ==> forall|k: Seq<char>| k != type_code@ ==> #[trigger] final(cache).primitive_map().spec_get(k)
            == old(cache).primitive_map().spec_get(k),
        resolved is None ==> final(cache).primitive_map() == old(cache).primitive_map(),
{
    match resolved {
        Some(d) => {
            let is_prim = is_primitive_document(d);
            cache.store_primitive(type_code, is_prim);
            is_prim
        },
        None => false,
    }
}

/// The sizes of the two caches.
pub fn cache_stats(documents: &DocumentCache, primitives: &PrimitiveCache) -> (r: CacheStats)
    ensures
        r.type_cache_size == documents.document_map().spec_entries().len(),
        r.primitive_cache_size == primitives.primitive_map().spec_entries().len(),
{
    CacheStats { type_cache_size: documents.len(), primitive_cache_size: primitives.len() }
}

} // verus!
