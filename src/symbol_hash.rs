//! Identity of a symbol: a fixed-width key derived from its kind and name.
//!
//! A key is laid out as `tag * 2^56 + low`, where `tag` is the kind's tag and
//! `low` is the low 56 bits of the 64-bit FNV-1a hash of the name's UTF-8
//! bytes. The layout is part of the on-disk format: changing it invalidates
//! every stored index.
use vstd::prelude::*;

verus! {

/// Number of distinct values of the name part of a key (2^56).
pub const NAME_SPAN: u64 = 0x0100_0000_0000_0000;

/// The namespaces of identity. Each kind owns a disjoint range of keys.
#[derive(Clone, Copy, Debug, PartialEq, Eq, Structural)]
pub enum SymbolKind {
    Function,
    Class,
    TypeAlias,
    Const,
    Module,
}

impl SymbolKind {
    pub open spec fn spec_tag(self) -> u64 {
        match self {
            SymbolKind::Function => 0,
            SymbolKind::Class => 1,
            SymbolKind::TypeAlias => 2,
            SymbolKind::Const => 3,
            SymbolKind::Module => 4,
        }
    }

    /// The tag that selects this kind's range of keys.
    pub fn tag(&self) -> (r: u64)
        ensures
            r == self.spec_tag(),
    {
        match self {
            SymbolKind::Function => 0,
            SymbolKind::Class => 1,
            SymbolKind::TypeAlias => 2,
            SymbolKind::Const => 3,
            SymbolKind::Module => 4,
        }
    }
}

/// The 64-bit FNV-1a hash of the UTF-8 bytes of a string.
pub uninterp spec fn fnv1a_of_str(s: Seq<char>) -> u64;

/// Relies on `fnv::FnvHasher`: starting from the FNV offset basis, it folds
/// each written byte into the state, and `finish` returns the state. The
/// result depends on the bytes alone; an empty input leaves the offset basis.
#[verifier::external_body]
fn fnv1a_str(s: &str) -> (r: u64)
    ensures
        r == fnv1a_of_str(s@),
        s@.len() == 0 ==> r == 0xcbf2_9ce4_8422_2325,
{
    let mut hasher = fnv::FnvHasher::default();
    std::hash::Hasher::write(&mut hasher, s.as_bytes());
    std::hash::Hasher::finish(&hasher)
}

/// The key of the symbol `name` of kind `kind`.
pub open spec fn name_key(kind: SymbolKind, name: Seq<char>) -> int {
    kind.spec_tag() * NAME_SPAN + fnv1a_of_str(name) % NAME_SPAN
}

/// The kind whose range of keys holds `key`.
pub open spec fn kind_tag_of_key(key: int) -> int {
    key / (NAME_SPAN as int)
}

/// Computes the storage key of the symbol `name` of kind `kind`.
pub fn name_to_hash(kind: SymbolKind, name: &str) -> (r: i64)
    ensures
        r as int == name_key(kind, name@),
        0 <= r,
{
    let h = fnv1a_str(name);
    let low: u64 = h % NAME_SPAN;
    let tag: u64 = kind.tag();
    let key: u64 = tag * NAME_SPAN + low;
    key as i64
}

/// A key lies in its kind's range: dividing it by the span of names gives
/// back the kind's tag.
pub proof fn lemma_key_in_kind_range(kind: SymbolKind, name: Seq<char>)
    ensures
        kind_tag_of_key(name_key(kind, name)) == kind.spec_tag(),
        0 <= name_key(kind, name) < 0x8000_0000_0000_0000,
{
    let t = kind.spec_tag() as int;
    let low = (fnv1a_of_str(name) % NAME_SPAN) as int;
    assert(0 <= low < NAME_SPAN);
    assert((t * NAME_SPAN + low) / (NAME_SPAN as int) == t) by (nonlinear_arith)
        requires
            0 <= low < NAME_SPAN,
            0 <= t,
    ;
}

/// Hashing is deterministic: the key depends on the kind and the characters
/// of the name alone, so equal inputs always give equal keys.
pub proof fn lemma_hash_deterministic(kind: SymbolKind, a: Seq<char>, b: Seq<char>)
    requires
        a == b,
    ensures
        name_key(kind, a) == name_key(kind, b),
{
}

/// Kinds are separated: symbols of two different kinds never share a key,
/// whatever their names.
pub proof fn lemma_kind_separation(k1: SymbolKind, n1: Seq<char>, k2: SymbolKind, n2: Seq<char>)
    requires
        k1 != k2,
    ensures
        name_key(k1, n1) != name_key(k2, n2),
{
    lemma_key_in_kind_range(k1, n1);
    lemma_key_in_kind_range(k2, n2);
}

} // verus!
