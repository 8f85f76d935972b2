//! The failures that end a reconciliation cycle.
use vstd::prelude::*;
use vstd::string::*;

verus! {

/// Why the remote record could not be written.
///
/// The three kinds are kept apart so that a caller can treat them
/// differently; the watcher itself ends the cycle on any of them.
#[derive(Debug, PartialEq, Eq)]
pub enum DnsServerUpdatorError {
    /// The request did not reach the remote service.
    FailedToSend(String),
    /// The remote service was reached and answered with a status other than
    /// success. The text holds the status and the body of the answer.
    ErrorResponse(String),
    /// Anything else, such as an answer whose body could not be read.
    Other(String),
}

impl DnsServerUpdatorError {
    /// The text that the error carries.
    pub open spec fn detail(&self) -> Seq<char> {
        match self {
            DnsServerUpdatorError::FailedToSend(text) => text@,
            DnsServerUpdatorError::ErrorResponse(text) => text@,
            DnsServerUpdatorError::Other(text) => text@,
        }
    }

    /// What came of handing a request to the remote service, given what the
    /// transport says: the answer where there is one, and `FailedToSend`
    /// with the transport's description where the request did not get
    /// through.
    pub fn delivery<T>(sent: Result<T, String>) -> (r: Result<T, DnsServerUpdatorError>)
        ensures
            sent matches Ok(answer) ==> r == Ok::<T, DnsServerUpdatorError>(answer),
            sent matches Err(why) ==> r == Err::<T, DnsServerUpdatorError>(
                DnsServerUpdatorError::FailedToSend(why),
            ),
    {
        match sent {
            Ok(answer) => Ok(answer),
            Err(why) => Err(DnsServerUpdatorError::FailedToSend(why)),
        }
    }

    /// What to show to the user: the text that the error carries, as it is.
    pub fn message(&self) -> (r: String)
        ensures
            r@ == self.detail(),
    {
        match self {
            DnsServerUpdatorError::FailedToSend(text) => text.clone(),
            DnsServerUpdatorError::ErrorResponse(text) => text.clone(),
            DnsServerUpdatorError::Other(text) => text.clone(),
        }
    }
}

/// Why the current public address could not be determined.
#[derive(Debug, PartialEq, Eq)]
pub enum PublicIpFetcherError {
    /// No address was found; the text says what went wrong.
    NotAbleToFetch(String),
}

impl PublicIpFetcherError {
    /// The text that the error carries.
    pub open spec fn detail(&self) -> Seq<char> {
        match self {
            PublicIpFetcherError::NotAbleToFetch(text) => text@,
        }
    }

    /// What to show to the user: the text that the error carries, as it is.
    pub fn message(&self) -> (r: String)
        ensures
            r@ == self.detail(),
    {
        match self {
            PublicIpFetcherError::NotAbleToFetch(text) => text.clone(),
        }
    }
}

/// Why a reconciliation cycle failed: at the fetch, or at the write.
#[derive(Debug, PartialEq, Eq)]
pub enum IcePartyWatcherError {
    /// The current address could not be fetched; no write was attempted.
    FailToFetchIp(PublicIpFetcherError),
    /// The address was fetched and had to be written, and the write failed.
    FailToUpdateDns(DnsServerUpdatorError),
}

impl IcePartyWatcherError {
    /// The text of the failure underneath.
    pub open spec fn detail(&self) -> Seq<char> {
        match self {
            IcePartyWatcherError::FailToFetchIp(cause) => cause.detail(),
            IcePartyWatcherError::FailToUpdateDns(cause) => cause.detail(),
        }
    }

    /// What to show to the user: the message of the failure underneath.
    pub fn message(&self) -> (r: String)
        ensures
            r@ == self.detail(),
    {
        match self {
            IcePartyWatcherError::FailToFetchIp(cause) => cause.message(),
            IcePartyWatcherError::FailToUpdateDns(cause) => cause.message(),
        }
    }
}

} // verus!
