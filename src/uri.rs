//! Connection strings for the in-memory replica.
use vstd::prelude::*;
use vstd::string::StringExecFns;

verus! {

/// The text of the URI naming the process-local in-memory store `name`,
/// optionally with a cache shared by every connection of the process.
pub open spec fn memory_uri_spec(name: Seq<char>, shared: bool) -> Seq<char> {
    "file:"@ + name + "?mode=memory"@ + (if shared {
        "&cache=shared"@
    } else {
        Seq::empty()
    })
}

/// Builds the URI of an in-memory store called `name`. When `shared` holds,
/// every connection opened on the URI within the process sees the same store.
pub fn in_memory_database_uri(name: &str, shared: bool) -> (r: String)
    ensures
        r@ == memory_uri_spec(name@, shared),
{
    let mut r = String::from_str("file:");
    r.append(name);
    r.append("?mode=memory");
    if shared {
        r.append("&cache=shared");
    }
    r
}

} // verus!
