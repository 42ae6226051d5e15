//! Name resolution.

use vstd::prelude::*;

use crate::net::{IpAddr, SocketAddr};

verus! {

/// The resolver of the operating system.
#[derive(Debug)]
pub struct DefaultDnsResolver;

impl DefaultDnsResolver {
    /// The IP addresses of socket addresses, in the same order.
    pub open spec fn ips(addrs: Seq<SocketAddr>) -> Seq<IpAddr> {
        addrs.map_values(|addr: SocketAddr| addr.ip_part())
    }

    /// The name and the port to look up for a host. Only the name matters.
    pub fn query(&self, host: &str) -> (query: (String, u16))
        ensures
            query.0@ == host@,
            query.1 == 0,
    {
        (host.to_owned(), 0)
    }

    /// Takes the IP addresses out of what a lookup gave.
    pub fn resolve(&self, lookup: Result<Vec<SocketAddr>, std::io::Error>) -> (ips: Result<
        Vec<IpAddr>,
        std::io::Error,
    >)
        ensures
            match (lookup, ips) {
                (Ok(addrs), Ok(ips)) => ips@ == Self::ips(addrs@),
                (Err(lookup_error), Err(error)) => error == lookup_error,
                _ => false,
            },
    {
        let addrs = match lookup {
            Ok(addrs) => addrs,
            Err(error) => return Err(error),
        };
        let mut ips: Vec<IpAddr> = Vec::new();
        let mut i: usize = 0;
        while i < addrs.len()
            invariant
                i <= addrs.len(),
                ips@ == Self::ips(addrs@.take(i as int)),
            decreases addrs.len() - i,
        {
            ips.push(addrs[i].ip());
            i = i + 1;
            assert(addrs@.take(i as int).drop_last() =~= addrs@.take(i - 1));
        }
        assert(addrs@.take(i as int) =~= addrs@);
        Ok(ips)
    }
}

} // verus!
