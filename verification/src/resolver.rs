//! Address-selection policy of the resolver: the surrounding binary performs
//! the system DNS lookup and hands the candidate addresses here as plain
//! values; this module picks the one the probe will use.

use vstd::prelude::*;

use crate::error::RkikError;

verus! {

/// One candidate address, as the plain values the selection policy reads:
/// its family and its textual form.
#[derive(Debug)]
pub struct IpAddress {
    /// Whether this is an IPv6 address.
    pub is_ipv6: bool,
    /// Textual form of the address, as the system resolver rendered it.
    pub text: String,
}

impl Clone for IpAddress {
    fn clone(&self) -> (r: Self)
        ensures
            r.is_ipv6 == self.is_ipv6,
            r.text@ == self.text@,
    {
        IpAddress { is_ipv6: self.is_ipv6, text: self.text.clone() }
    }
}

/// `i` is the index of the first IPv4 address in `s`.
pub open spec fn first_ipv4_at(s: Seq<IpAddress>, i: int) -> bool {
    &&& 0 <= i < s.len()
    &&& !s[i].is_ipv6
    &&& forall|j: int| 0 <= j < i ==> s[j].is_ipv6
}

/// `i` is the index of the first IPv6 address in `s`.
pub open spec fn first_ipv6_at(s: Seq<IpAddress>, i: int) -> bool {
    &&& 0 <= i < s.len()
    &&& s[i].is_ipv6
    &&& forall|j: int| 0 <= j < i ==> !s[j].is_ipv6
}

/// Two addresses hold the same values.
pub open spec fn same_address(a: IpAddress, b: IpAddress) -> bool {
    a.is_ipv6 == b.is_ipv6 && a.text@ == b.text@
}

/// Select the address a probe will use from the resolver's candidates,
/// honoring the address-family policy:
///
/// - with `ipv6_only`, the first IPv6 address; a DNS error if there is none;
/// - otherwise the first IPv4 address when any exists — IPv4 always wins
///   over IPv6 when both are present — and the first IPv6 address only when
///   no IPv4 candidate exists; a DNS error when the list is empty.
pub fn select_ip(addrs: &Vec<IpAddress>, ipv6_only: bool, host: &str) -> (r: Result<
    IpAddress,
    RkikError,
>)
    ensures
        ipv6_only ==> {
            &&& (r is Ok <==> exists|i: int| first_ipv6_at(addrs@, i))
            &&& r matches Ok(a) ==> exists|i: int| #[trigger] first_ipv6_at(addrs@, i)
                && same_address(a, addrs@[i])
            &&& r matches Ok(a) ==> a.is_ipv6
        },
        !ipv6_only ==> {
            &&& (r is Ok <==> addrs@.len() > 0)
            &&& r matches Ok(a) ==> {
                if exists|i: int| first_ipv4_at(addrs@, i) {
                    exists|i: int| #[trigger] first_ipv4_at(addrs@, i) && same_address(
                        a,
                        addrs@[i],
                    )
                } else {
                    exists|i: int| #[trigger] first_ipv6_at(addrs@, i) && same_address(
                        a,
                        addrs@[i],
                    )
                }
            }
            &&& ((exists|i: int| first_ipv4_at(addrs@, i)) && r is Ok) ==> (r matches Ok(a)
                && !a.is_ipv6)
        },
        r matches Err(e) ==> e matches RkikError::Dns(m) && m@ == (if ipv6_only {
            "No IPv6 address found for '"@ + host@ + "'"@
        } else {
            "No IP address found for '"@ + host@ + "'"@
        }),
{
    let n = addrs.len();
    if ipv6_only {
        let mut i: usize = 0;
        while i < n
            invariant
                ipv6_only,
                0 <= i <= n,
                n == addrs@.len(),
                forall|j: int| 0 <= j < i ==> !addrs@[j].is_ipv6,
            decreases n - i,
        {
            if addrs[i].is_ipv6 {
                proof {
                    assert(first_ipv6_at(addrs@, i as int));
                }
                return Ok(addrs[i].clone());
            }
            i = i + 1;
        }
        proof {
            assert(forall|k: int| !first_ipv6_at(addrs@, k));
        }
        let mut m = "No IPv6 address found for '".to_owned();
        m.append(host);
        m.append("'");
        proof {
            assert(m@ =~= "No IPv6 address found for '"@ + host@ + "'"@);
        }
        Err(RkikError::Dns(m))
    } else {
        // First pass: the first IPv4 address wins outright.
        let mut i: usize = 0;
        while i < n
            invariant
                !ipv6_only,
                0 <= i <= n,
                n == addrs@.len(),
                forall|j: int| 0 <= j < i ==> addrs@[j].is_ipv6,
            decreases n - i,
        {
            if !addrs[i].is_ipv6 {
                proof {
                    assert(first_ipv4_at(addrs@, i as int));
                }
                return Ok(addrs[i].clone());
            }
            i = i + 1;
        }
        // No IPv4 candidate: fall back to the first address, necessarily IPv6.
        if n > 0 {
            proof {
                assert(forall|k: int| !first_ipv4_at(addrs@, k));
                assert(first_ipv6_at(addrs@, 0));
            }
            Ok(addrs[0].clone())
        } else {
            let mut m = "No IP address found for '".to_owned();
            m.append(host);
            m.append("'");
            proof {
                assert(m@ =~= "No IP address found for '"@ + host@ + "'"@);
            }
            Err(RkikError::Dns(m))
        }
    }
}

} // verus!
