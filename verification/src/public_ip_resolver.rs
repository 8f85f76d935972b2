//! The address source that asks the outside world which address this host
//! is seen under.
use vstd::prelude::*;
use vstd::string::*;
use crate::address::PublicAddress;
use crate::error::PublicIpFetcherError;

verus! {

/// Turns what a public address lookup found into the answer of an address
/// source.
pub struct PublicIpResolver {}

impl PublicIpResolver {
    pub fn new() -> (r: Self)
        ensures
            r == (PublicIpResolver {  }),
    {
        Self {  }
    }

    /// The answer of the address source, given what the lookup found: the
    /// address where it found one, and otherwise the error that none could
    /// be had. No address is ever made up.
    pub fn current_ip(&self, found: Option<PublicAddress>) -> (r: Result<
        PublicAddress,
        PublicIpFetcherError,
    >)
        ensures
            found matches Some(ip) ==> r == Ok::<PublicAddress, PublicIpFetcherError>(ip),
            found is None ==> (r matches Err(PublicIpFetcherError::NotAbleToFetch(text))
                && text@ == "Couldn't get the public IP address"@),
    {
        if let Some(ip) = found {
            Ok(ip)
        } else {
            Err(
                PublicIpFetcherError::NotAbleToFetch(
                    String::from_str("Couldn't get the public IP address"),
                ),
            )
        }
    }
}

} // verus!
