//! Startup-parameter logic that is the library's to decide: which of the
//! resolved server addresses a connecting client should use. Resolving a
//! hostname is I/O and happens outside this crate; picking among the
//! results is a rule, fixed here.

use vstd::prelude::*;

use crate::connection::PeerAddr;

verus! {

/// Which IP family the user asked to connect over.
#[derive(Clone, Copy, PartialEq, Eq, Structural, Debug)]
pub enum IpVersion {
    V4,
    V6,
}

impl IpVersion {
    pub fn is_v4(&self) -> (r: bool)
        ensures
            r == (self is V4),
    {
        matches!(self, IpVersion::V4)
    }
}

/// Why no usable server address was found.
#[derive(Clone, Copy, PartialEq, Eq, Structural, Debug)]
pub enum AddressSelectionError {
    /// The hostname resolved to no addresses at all.
    NoDnsRecords,
    /// IPv4 was requested but only IPv6 addresses were found.
    OnlyIpv6Records,
    /// IPv6 was requested but only IPv4 addresses were found.
    OnlyIpv4Records,
}

/// The resolved addresses of the requested family, in their original
/// order.
pub open spec fn spec_matching_addrs(addrs: Seq<PeerAddr>, ip_version: IpVersion) -> Seq<
    PeerAddr,
>
    decreases addrs.len(),
{
    if addrs.len() == 0 {
        Seq::empty()
    } else {
        let rest = spec_matching_addrs(addrs.drop_last(), ip_version);
        if addrs.last().is_v6 == (ip_version is V6) {
            rest.push(addrs.last())
        } else {
            rest
        }
    }
}

/// Picks the server address to connect to: one of the resolved addresses
/// of the requested IP family, chosen by the caller-supplied draw `pick`
/// (reduced modulo the number of candidates). When no address fits, the
/// error says whether the hostname resolved to nothing at all or only to
/// addresses of the other family.
pub fn select_server_address(
    addrs: &Vec<PeerAddr>,
    ip_version: &IpVersion,
    pick: usize,
) -> (r: Result<PeerAddr, AddressSelectionError>)
    ensures
        ({
            let matching = spec_matching_addrs(addrs@, *ip_version);
            match r {
                Ok(a) => matching.len() > 0 && a == matching[pick as int % matching.len() as int],
                Err(e) => matching.len() == 0 && e == (if addrs@.len() == 0 {
                    AddressSelectionError::NoDnsRecords
                } else if *ip_version is V4 {
                    AddressSelectionError::OnlyIpv6Records
                } else {
                    AddressSelectionError::OnlyIpv4Records
                }),
            }
        }),
{
    let want_v6 = !ip_version.is_v4();
    let mut matching: Vec<PeerAddr> = Vec::new();
    let mut i: usize = 0;
    proof {
        assert(addrs@.subrange(0, 0) =~= Seq::<PeerAddr>::empty());
    }
    while i < addrs.len()
        invariant
            i <= addrs@.len(),
            want_v6 == (*ip_version is V6),
            matching@ == spec_matching_addrs(addrs@.subrange(0, i as int), *ip_version),
        decreases addrs@.len() - i,
    {
        proof {
            assert(addrs@.subrange(0, (i + 1) as int).drop_last() =~= addrs@.subrange(
                0,
                i as int,
            ));
            assert(addrs@.subrange(0, (i + 1) as int).last() == addrs@[i as int]);
        }
        if addrs[i].is_v6 == want_v6 {
            matching.push(addrs[i]);
        }
        i = i + 1;
    }
    proof {
        assert(addrs@.subrange(0, addrs@.len() as int) =~= addrs@);
    }
    if matching.len() > 0 {
        Ok(matching[pick % matching.len()])
    } else if addrs.len() == 0 {
        Err(AddressSelectionError::NoDnsRecords)
    } else if ip_version.is_v4() {
        Err(AddressSelectionError::OnlyIpv6Records)
    } else {
        Err(AddressSelectionError::OnlyIpv4Records)
    }
}

} // verus!
