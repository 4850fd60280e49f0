use vstd::prelude::*;
use crate::config::{Account, OtherConfig};

verus! {

/// Per-field precedence: the service's own value where it has one, else the global one.
pub open spec fn merged<T>(local: Option<T>, global: Option<T>) -> Option<T> {
    if local is Some {
        local
    } else {
        global
    }
}

pub open spec fn deps_of(c: Option<OtherConfig>) -> Option<String> {
    match c {
        Some(c) => c.deps,
        None => None,
    }
}

pub open spec fn start_of(c: Option<OtherConfig>) -> Option<bool> {
    match c {
        Some(c) => c.start_on_create,
        None => None,
    }
}

pub open spec fn account_of(c: Option<OtherConfig>) -> Option<Account> {
    match c {
        Some(c) => c.account,
        None => None,
    }
}

/// Picks the first of two optional values that is present.
pub fn merge_other_conf<'a, R>(lhs: Option<&'a R>, rhs: Option<&'a R>) -> (r: Option<&'a R>)
    ensures
        r == merged(lhs, rhs),
{
    match lhs {
        Some(x) => Some(x),
        None => rhs,
    }
}

/// The dependency list in effect for a service.
pub fn effective_deps<'a>(local: &'a Option<OtherConfig>, global: &'a Option<OtherConfig>) -> (r:
    Option<&'a String>)
    ensures
        r is Some <==> merged(deps_of(*local), deps_of(*global)) is Some,
        r is Some ==> *r->0 == merged(deps_of(*local), deps_of(*global))->0,
{
    let l = match local {
        Some(c) => c.deps.as_ref(),
        None => None,
    };
    let g = match global {
        Some(c) => c.deps.as_ref(),
        None => None,
    };
    merge_other_conf(l, g)
}

/// Whether a service is started once configured: the flag in effect, false where none is.
pub fn effective_start(local: &Option<OtherConfig>, global: &Option<OtherConfig>) -> (r: bool)
    ensures
        r == (merged(start_of(*local), start_of(*global)) == Some(true)),
{
    let l = match local {
        Some(c) => c.start_on_create.as_ref(),
        None => None,
    };
    let g = match global {
        Some(c) => c.start_on_create.as_ref(),
        None => None,
    };
    match merge_other_conf(l, g) {
        Some(b) => *b,
        None => false,
    }
}

/// The account in effect for a service; an account is taken whole from one scope.
pub fn effective_account<'a>(local: &'a Option<OtherConfig>, global: &'a Option<OtherConfig>) -> (r:
    Option<&'a Account>)
    ensures
        r is Some <==> merged(account_of(*local), account_of(*global)) is Some,
        r is Some ==> *r->0 == merged(account_of(*local), account_of(*global))->0,
{
    let l = match local {
        Some(c) => c.account.as_ref(),
        None => None,
    };
    let g = match global {
        Some(c) => c.account.as_ref(),
        None => None,
    };
    merge_other_conf(l, g)
}

} // verus!
