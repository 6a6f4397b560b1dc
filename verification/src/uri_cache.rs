//! The fragment-link cache: a transient map from `"<name>#<id>"` to the
//! source offset of the node carrying that `id`.  The map itself is
//! `fxhash`'s `FxHashMap` (std's `HashMap` with the `FxHasher`), used through
//! trusted wrappers whose contracts speak of the map's contents.

use vstd::prelude::*;

verus! {

/// Declares `fxhash::FxHasher` so that `fxhash::FxHashMap` (std's `HashMap`
/// keyed with `BuildHasherDefault<FxHasher>`) can appear in signatures.
#[verifier::external_type_specification]
#[verifier::external_body]
pub struct ExFxHasher(fxhash::FxHasher);

/// Declares std's `BuildHasherDefault`, which vstd gives no specification.
#[verifier::external_type_specification]
#[verifier::external_body]
#[verifier::reject_recursive_types(H)]
pub struct ExBuildHasherDefault<H>(std::hash::BuildHasherDefault<H>);

/// The transient fragment-link cache type.
pub type UriCache = fxhash::FxHashMap<String, usize>;

/// The entries held by a URI cache, as a map from key characters to offsets.
pub uninterp spec fn cache_entries(m: UriCache) -> Map<Seq<char>, usize>;

/// The contents of a cache that holds no entry.
pub open spec fn no_entries() -> Map<Seq<char>, usize> {
    Map::empty()
}

/// Relies on std's `HashMap::default`: a freshly made map holds no entry.
#[verifier::external_body]
pub fn uri_cache_new() -> (made: UriCache)
    ensures
        cache_entries(made) == no_entries(),
{
    fxhash::FxHashMap::default()
}

/// Relies on std's `HashMap::insert`: after the call the map holds `value`
/// under `key`, overwriting any earlier entry for an equal key; string keys
/// compare by their characters.
#[verifier::external_body]
pub fn uri_cache_insert(m: &mut UriCache, key: String, value: usize)
    ensures
        cache_entries(*final(m)) == cache_entries(*old(m)).insert(key@, value),
{
    m.insert(key, value);
}

/// Relies on std's `HashMap::get`: returns the value stored for the key, or
/// nothing when no entry with those characters is held.
#[verifier::external_body]
pub fn uri_cache_get(m: &UriCache, key: &str) -> (r: Option<usize>)
    ensures
        r == (if cache_entries(*m).contains_key(key@) {
            Some(cache_entries(*m)[key@])
        } else {
            None::<usize>
        }),
{
    m.get(key).cloned()
}

} // verus!
