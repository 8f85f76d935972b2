//! The two capabilities that a watcher works with: one that finds out the
//! current public address, and one that writes an address into the remote
//! record.
//!
//! Both are for the user of the library to implement. Nothing is assumed of
//! an implementation but its signature: whatever it answers, the watcher
//! keeps its promises.
use vstd::prelude::*;
use crate::address::PublicAddress;
use crate::error::{DnsServerUpdatorError, PublicIpFetcherError};

verus! {

/// Finds out the current public address of this host.
pub trait PublicIpFetcher {
    /// The address under which this host is seen from outside, or an error
    /// where none could be determined. An implementation does not guess: it
    /// answers with an address only where it has one.
    fn current_ip(&self) -> Result<PublicAddress, PublicIpFetcherError>;
}

/// Writes an address into the one remote record.
pub trait DnsServerUpdator {
    /// Replaces what the remote record holds by `ip`. Success means that the
    /// record now holds `ip`; writing the address that it holds already
    /// succeeds as well and changes nothing.
    fn update_ip_in_dns(&self, ip: PublicAddress) -> Result<(), DnsServerUpdatorError>;
}

} // verus!
