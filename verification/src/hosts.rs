//! Hosts of origins, and whether one lies in the domain of another.

use url::Host;
use url::Url;
use vstd::prelude::*;

verus! {

/// The host of the URL that `input` parses to: whether it is a domain, and
/// its text in bytes, an address being written as URLs write it. `None`
/// where `input` is no absolute URL or the URL has no host.
pub uninterp spec fn url_host_of(input: Seq<char>) -> Option<(bool, Seq<u8>)>;

/// The host that `input` parses to, in normalized form: whether it is a
/// domain, and its text in bytes. `None` where `input` is no host.
pub uninterp spec fn host_of(input: Seq<char>) -> Option<(bool, Seq<u8>)>;

/// Calls `Url::parse` and `Url::host` of the url crate: the host of the
/// parsed URL, as the kind it is of and the bytes of its text.
#[verifier::external_body]
pub(crate) fn url_host(input: &str) -> (r: Option<(bool, Vec<u8>)>)
    ensures
        r.is_some() == url_host_of(input@).is_some(),
        r matches Some(h) ==> Some((h.0, h.1@)) == url_host_of(input@),
{
    Url::parse(input).ok().and_then(
        |u| u.host().map(|h| (matches!(h, Host::Domain(_)), h.to_string().into_bytes())),
    )
}

/// Calls `Host::parse` of the url crate: the host that `input` names, as
/// the kind it is of and the bytes of its text.
#[verifier::external_body]
pub(crate) fn parse_host(input: &str) -> (r: Option<(bool, Vec<u8>)>)
    ensures
        r.is_some() == host_of(input@).is_some(),
        r matches Some(h) ==> Some((h.0, h.1@)) == host_of(input@),
{
    Host::parse(input).ok().map(|h| (matches!(h, Host::Domain(_)), h.to_string().into_bytes()))
}

/// Whether the domain `look` is `base` or lies below it: it ends in `base`,
/// and what stands before, if anything, ends in a dot.
pub open spec fn same_or_subdomain(look: Seq<u8>, base: Seq<u8>) -> bool {
    &&& look.len() >= base.len()
    &&& look.skip(look.len() - base.len()) == base
    &&& look.len() > base.len() ==> look[look.len() - base.len() - 1] == 0x2e
}

/// Whether the host `look` lies in `base`: a domain in a domain as
/// [`same_or_subdomain`] says, an address only where it is the same address.
pub open spec fn host_in(look: Option<(bool, Seq<u8>)>, base: (bool, Seq<u8>)) -> bool {
    match look {
        Some((is_domain, text)) => if is_domain && base.0 {
            same_or_subdomain(text, base.1)
        } else if !is_domain && !base.0 {
            text == base.1
        } else {
            false
        },
        None => false,
    }
}

fn ends_with(look: &Vec<u8>, base: &Vec<u8>) -> (r: bool)
    requires
        look@.len() >= base@.len(),
    ensures
        r == (look@.skip(look@.len() - base@.len()) == base@),
{
    let offset = look.len() - base.len();
    let ghost tail = look@.skip(offset as int);
    let mut k: usize = 0;
    while k < base.len()
        invariant
            k <= base@.len(),
            look@.len() <= usize::MAX,
            offset == look@.len() - base@.len(),
            tail == look@.skip(offset as int),
            forall|j: int| 0 <= j < k ==> tail[j] == base@[j],
        decreases base@.len() - k,
    {
        if look[offset + k] != base[k] {
            return false;
        }
        k = k + 1;
    }
    assert(tail =~= base@);
    true
}

fn same_bytes(a: &Vec<u8>, b: &Vec<u8>) -> (r: bool)
    ensures
        r == (a@ == b@),
{
    if a.len() != b.len() {
        return false;
    }
    let r = ends_with(a, b);
    assert(a@.skip(0) =~= a@);
    r
}

/// Whether the host `look` lies in `base`: see [`host_in`].
pub(crate) fn is_host_in(look: &Option<(bool, Vec<u8>)>, base: &(bool, Vec<u8>)) -> (r: bool)
    ensures
        r == host_in(
            match look {
                Some(h) => Some((h.0, h.1@)),
                None => None,
            },
            (base.0, base.1@),
        ),
{
    match look {
        None => false,
        Some(h) => {
            if h.0 && base.0 {
                if h.1.len() < base.1.len() {
                    false
                } else if !ends_with(&h.1, &base.1) {
                    false
                } else if h.1.len() > base.1.len() {
                    h.1[h.1.len() - base.1.len() - 1] == 0x2e
                } else {
                    true
                }
            } else if !h.0 && !base.0 {
                same_bytes(&h.1, &base.1)
            } else {
                false
            }
        },
    }
}

} // verus!
