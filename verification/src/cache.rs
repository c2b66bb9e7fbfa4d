use std::sync::Arc;

use vstd::prelude::*;

use crate::context::DecodeContext;
use crate::error::SRCError;

verus! {

#[verifier::external_type_specification]
#[verifier::external_body]
#[verifier::reject_recursive_types(K)]
#[verifier::reject_recursive_types(V)]
#[verifier::reject_recursive_types(H)]
pub struct ExSccHashMap<K, V, H>(scc::HashMap<K, V, H>) where H: std::hash::BuildHasher;

/// What the closure cache holds: the schema-text closure stored under each
/// identifier.
pub uninterp spec fn closure_cache_view(m: scc::HashMap<u32, Vec<String>>) -> Map<
    u32,
    Seq<Seq<char>>,
>;

/// What the error cache holds: the error stored under each identifier.
pub uninterp spec fn error_cache_view(m: scc::HashMap<u32, SRCError>) -> Map<u32, SRCError>;

/// Which identifiers the context cache holds a compiled context for.
pub uninterp spec fn context_cache_ids(m: scc::HashMap<u32, Arc<DecodeContext>>) -> Set<u32>;

/// The cache holds nothing.
pub open spec fn closure_cache_empty(m: scc::HashMap<u32, Vec<String>>) -> bool {
    closure_cache_view(m) == Map::<u32, Seq<Seq<char>>>::empty()
}

/// The cache holds nothing.
pub open spec fn error_cache_empty(m: scc::HashMap<u32, SRCError>) -> bool {
    error_cache_view(m) == Map::<u32, SRCError>::empty()
}

/// The cache holds nothing.
pub open spec fn context_cache_empty(m: scc::HashMap<u32, Arc<DecodeContext>>) -> bool {
    context_cache_ids(m) == Set::<u32>::empty()
}

/// Relies on scc::HashMap::new: a fresh map holds nothing.
#[verifier::external_body]
pub(crate) fn closure_cache_new() -> (m: scc::HashMap<u32, Vec<String>>)
    ensures
        closure_cache_empty(m),
{
    scc::HashMap::new()
}

/// Relies on scc::HashMap::read_sync: hands back a clone of the value under
/// the key, or `None` when the key is absent.
#[verifier::external_body]
pub(crate) fn closure_cache_get(m: &scc::HashMap<u32, Vec<String>>, id: u32) -> (r: Option<
    Vec<String>,
>)
    ensures
        match r {
            Some(v) => closure_cache_view(*m).contains_key(id) && v@.map_values(|s: String| s@)
                == closure_cache_view(*m)[id],
            None => !closure_cache_view(*m).contains_key(id),
        },
{
    m.read_sync(&id, |_, v| v.clone())
}

/// Relies on scc::HashMap::insert_sync: inserts the value when the key is
/// absent, and leaves the map unchanged when the key is already present.
#[verifier::external_body]
pub(crate) fn closure_cache_insert(m: &mut scc::HashMap<u32, Vec<String>>, id: u32, v: Vec<String>)
    ensures
        closure_cache_view(*final(m)) == if closure_cache_view(*old(m)).contains_key(id) {
            closure_cache_view(*old(m))
        } else {
            closure_cache_view(*old(m)).insert(id, v@.map_values(|s: String| s@))
        },
{
    let _ = m.insert_sync(id, v);
}

/// Relies on scc::HashMap::new: a fresh map holds nothing.
#[verifier::external_body]
pub(crate) fn error_cache_new() -> (m: scc::HashMap<u32, SRCError>)
    ensures
        error_cache_empty(m),
{
    scc::HashMap::new()
}

/// Relies on scc::HashMap::read_sync: hands back a clone of the value under
/// the key, or `None` when the key is absent.
#[verifier::external_body]
pub(crate) fn error_cache_get(m: &scc::HashMap<u32, SRCError>, id: u32) -> (r: Option<SRCError>)
    ensures
        match r {
            Some(e) => error_cache_view(*m).contains_key(id) && e == error_cache_view(*m)[id],
            None => !error_cache_view(*m).contains_key(id),
        },
{
    m.read_sync(&id, |_, v| v.clone())
}

/// Relies on scc::HashMap::insert_sync: inserts the value when the key is
/// absent, and leaves the map unchanged when the key is already present.
#[verifier::external_body]
pub(crate) fn error_cache_insert(m: &mut scc::HashMap<u32, SRCError>, id: u32, e: SRCError)
    ensures
        error_cache_view(*final(m)) == if error_cache_view(*old(m)).contains_key(id) {
            error_cache_view(*old(m))
        } else {
            error_cache_view(*old(m)).insert(id, e)
        },
{
    let _ = m.insert_sync(id, e);
}

/// Relies on scc::HashMap::clear_sync: removes every entry.
#[verifier::external_body]
pub(crate) fn error_cache_clear(m: &mut scc::HashMap<u32, SRCError>)
    ensures
        error_cache_empty(*final(m)),
{
    m.clear_sync();
}

/// Relies on scc::HashMap::new: a fresh map holds nothing.
#[verifier::external_body]
pub(crate) fn context_cache_new() -> (m: scc::HashMap<u32, Arc<DecodeContext>>)
    ensures
        context_cache_empty(m),
{
    scc::HashMap::new()
}

/// Relies on scc::HashMap::read_sync: hands back a shared handle to the value
/// under the key, or `None` when the key is absent.
#[verifier::external_body]
pub(crate) fn context_cache_get(m: &scc::HashMap<u32, Arc<DecodeContext>>, id: u32) -> (r: Option<
    Arc<DecodeContext>,
>)
    ensures
        r is Some <==> context_cache_ids(*m).contains(id),
{
    m.read_sync(&id, |_, v| v.clone())
}

/// Relies on scc::HashMap::insert_sync: inserts the value when the key is
/// absent, and leaves the map unchanged when the key is already present.
#[verifier::external_body]
pub(crate) fn context_cache_insert(
    m: &mut scc::HashMap<u32, Arc<DecodeContext>>,
    id: u32,
    v: Arc<DecodeContext>,
)
    ensures
        context_cache_ids(*final(m)) == context_cache_ids(*old(m)).insert(id),
{
    let _ = m.insert_sync(id, v);
}

} // verus!
