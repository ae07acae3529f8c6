//! Accessor dispatch for request proxies: how a property read coming out
//! of script resolves against the wrapped native request. The four
//! capability names read through to the request; every other name stays
//! unresolved, which script observes as `undefined`.

use vstd::prelude::*;
use crate::arena::{RequestArena, RequestProxy};
use crate::errors::LifetimeViolation;
use crate::http_request::SimpleHttpRequest;
use crate::strutil::str_eq;

verus! {

/// What a property read on a wrapped request resolves to: the matching
/// capability for the four installed accessor names, nothing for any
/// other name.
pub open spec fn resolved_property<R: SimpleHttpRequest>(req: R, name: Seq<char>) -> Option<
    Seq<char>,
> {
    if name == "path"@ {
        Some(req.path_spec())
    } else if name == "userAgent"@ {
        Some(req.user_agent_spec())
    } else if name == "referrer"@ {
        Some(req.referrer_spec())
    } else if name == "host"@ {
        Some(req.host_spec())
    } else {
        None
    }
}

/// Resolves one property read against the request itself. `None` means
/// the name is not an installed accessor and reads as `undefined`.
pub fn resolve_property<R: SimpleHttpRequest>(req: &R, name: &str) -> (v: Option<String>)
    ensures
        v.deep_view() == resolved_property(*req, name@),
{
    if str_eq(name, "path") {
        Some(req.path().to_owned())
    } else if str_eq(name, "userAgent") {
        Some(req.user_agent().to_owned())
    } else if str_eq(name, "referrer") {
        Some(req.referrer().to_owned())
    } else if str_eq(name, "host") {
        Some(req.host().to_owned())
    } else {
        None
    }
}

/// Handles one property read arriving from script against the arena: the
/// proxy's slot is checked before the request is touched, so a stale
/// proxy is rejected instead of dereferenced.
pub fn request_prop_handler<R: SimpleHttpRequest>(
    arena: &RequestArena<R>,
    proxy: RequestProxy,
    name: &str,
) -> (r: Result<Option<String>, LifetimeViolation>)
    ensures
        arena.live(proxy) ==> (r matches Ok(v) && v.deep_view() == resolved_property(
            arena@[proxy.slot as int]->Some_0,
            name@,
        )),
        !arena.live(proxy) ==> r == Err::<Option<String>, LifetimeViolation>(LifetimeViolation),
{
    match arena.resolve(proxy) {
        Some(req) => Ok(resolve_property(req, name)),
        None => Err(LifetimeViolation),
    }
}

/// Law: wrapping a request and reading each capability field back yields
/// exactly the value the request carries, and any name outside the four
/// installed accessors resolves to nothing.
pub proof fn lemma_capability_round_trip<R: SimpleHttpRequest>(req: R)
    ensures
        resolved_property(req, "path"@) == Some(req.path_spec()),
        resolved_property(req, "userAgent"@) == Some(req.user_agent_spec()),
        resolved_property(req, "referrer"@) == Some(req.referrer_spec()),
        resolved_property(req, "host"@) == Some(req.host_spec()),
        forall|name: Seq<char>|
            name != "path"@ && name != "userAgent"@ && name != "referrer"@ && name != "host"@
                ==> resolved_property(req, name) is None,
{
    reveal_strlit("path");
    reveal_strlit("userAgent");
    reveal_strlit("referrer");
    reveal_strlit("host");
    assert("path"@.len() == 4 && "userAgent"@.len() == 9 && "referrer"@.len() == 8 && "host"@.len()
        == 4);
    assert("path"@[0] == 'p' && "host"@[0] == 'h');
}

} // verus!
