//! Which services found by mDNS are other machines.
//!
//! A service is announced under the host name `<address>.local.` of its
//! machine. The caller browses; this module says whether a resolved host
//! is another machine than this one.

use vstd::prelude::*;
use vstd::string::StrSliceExecFns;

verus! {

/// Whether `pattern` stands in `text` at place `at`.
pub open spec fn occurs_at(text: Seq<char>, pattern: Seq<char>, at: int) -> bool {
    0 <= at && at + pattern.len() <= text.len() && text.subrange(at, at + pattern.len())
        == pattern
}

/// Whether the leftmost occurrence of `pattern` in `text` is at place `at`.
pub open spec fn first_occurs_at(text: Seq<char>, pattern: Seq<char>, at: int) -> bool {
    occurs_at(text, pattern, at) && forall|earlier: int|
        0 <= earlier < at ==> !occurs_at(text, pattern, earlier)
}

/// The address of the machine behind a resolved host name, unless it is this
/// machine: what stands before the leftmost `.local.` in the host name, if
/// there is a `.local.` and if that is not the local address.
pub open spec fn remote_host(service_host: Seq<char>, local_ip: Seq<char>) -> Option<Seq<char>> {
    if exists|at: int| first_occurs_at(service_host, ".local."@, at) {
        let at = choose|at: int| first_occurs_at(service_host, ".local."@, at);
        let address = service_host.subrange(0, at);
        if address == local_ip {
            None
        } else {
            Some(address)
        }
    } else {
        None
    }
}

fn stands_at(text: &str, len: usize, pattern: &str, pattern_len: usize, at: usize) -> (r: bool)
    requires
        len == text@.len(),
        pattern_len == pattern@.len(),
        at + pattern_len <= len,
    ensures
        r == occurs_at(text@, pattern@, at as int),
{
    let ghost part = text@.subrange(at as int, at + pattern_len);
    let mut k: usize = 0;
    while k < pattern_len
        invariant
            k <= pattern_len,
            len == text@.len(),
            pattern_len == pattern@.len(),
            at + pattern_len <= len,
            part == text@.subrange(at as int, at + pattern_len),
            forall|j: int| 0 <= j < k ==> part[j] == pattern@[j],
        decreases pattern_len - k,
    {
        if text.get_char(at + k) != pattern.get_char(k) {
            assert(part[k as int] != pattern@[k as int]);
            return false;
        }
        k += 1;
    }
    assert(part =~= pattern@);
    true
}

/// Says whether a resolved host is another machine, and which: see
/// [`remote_host`].
pub fn other_host(service_host: &str, local_ip: &str) -> (r: Option<String>)
    ensures
        match r {
            Some(address) => remote_host(service_host@, local_ip@) == Some(address@),
            None => remote_host(service_host@, local_ip@) is None,
        },
{
    let suffix = ".local.";
    let len = service_host.unicode_len();
    let suffix_len = suffix.unicode_len();
    let mut at: usize = 0;
    while at < len && len - at >= suffix_len
        invariant
            len == service_host@.len(),
            suffix_len == suffix@.len(),
            suffix@ == ".local."@,
            forall|earlier: int| 0 <= earlier < at ==> !occurs_at(service_host@, suffix@, earlier),
        decreases len - at,
    {
        if stands_at(service_host, len, suffix, suffix_len, at) {
            assert(first_occurs_at(service_host@, ".local."@, at as int));
            let address = service_host.substring_char(0, at).to_owned();
            let local = local_ip.to_owned();
            if address == local {
                return None;
            }
            return Some(address);
        }
        at += 1;
    }
    proof {
        reveal_strlit(".local.");
        assert forall|any: int| !first_occurs_at(service_host@, ".local."@, any) by {
            if occurs_at(service_host@, ".local."@, any) {
                assert(any < at);
            }
        }
    }
    None
}

} // verus!
