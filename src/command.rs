use vstd::prelude::*;
use crate::error::{ErrorKind, NetRouteError, fail};
use crate::input::{parse_usize, parse_usize_spec};

verus! {

/// A page size or page number from the command line: a `usize` of at least 1.
pub fn less_than_one_error(s: &str) -> (r: Result<usize, String>)
    ensures
        match parse_usize_spec(s@) {
            None => r is Err,
            Some(v) => if v >= 1 {
                r == Ok::<usize, String>(v)
            } else {
                r is Err
            },
        },
{
    match parse_usize(s) {
        None => Err(String::from_str("Invalid page size")),
        Some(v) => if v < 1 {
            Err(String::from_str("Page size must be at least 1"))
        } else {
            Ok(v)
        },
    }
}

/// What a remove command names.
#[derive(Clone, Copy, Debug, PartialEq, Eq, Structural)]
pub enum RemoveTarget {
    /// The routes of a domain's addresses.
    Domain,
    /// The route to an address and prefix.
    Address,
}

/// A remove command removes by domain when no address is given, by address
/// when no domain is given, and is refused when both are given.
pub fn remove_target(destination: &str, domain: &str) -> (r: Result<RemoveTarget, NetRouteError>)
    ensures
        destination@.len() == 0 ==> r == Ok::<RemoveTarget, NetRouteError>(RemoveTarget::Domain),
        destination@.len() > 0 && domain@.len() == 0 ==> r == Ok::<RemoveTarget, NetRouteError>(
            RemoveTarget::Address,
        ),
        destination@.len() > 0 && domain@.len() > 0 ==> r is Err && r->Err_0.kind
            == ErrorKind::Other,
{
    if destination.unicode_len() == 0 {
        Ok(RemoveTarget::Domain)
    } else if domain.unicode_len() == 0 {
        Ok(RemoveTarget::Address)
    } else {
        Err(fail(ErrorKind::Other, "目标 IP 地址和域名必须有一个不为空"))
    }
}

} // verus!
