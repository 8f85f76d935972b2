//! A reconciliation daemon's core: it keeps one remote name record pointing at
//! the public address of the host it runs on.
//!
//! The crate holds the decisions of the daemon and leaves every network call
//! to its caller. A caller fetches the current address, asks the
//! [`IcePartyWatcher`] what to do with it, performs the write it is told to
//! perform, and reports back how the write went.
//!
//! - [`watcher`] holds the watcher itself, [`capability`] the two interfaces
//!   it works with, and [`cycle`] what a cycle and a run of cycles come to,
//!   with the proofs of what the design promises.
//! - [`cloud_dns`] and [`route53_dns`] say what to send to a record sink and
//!   what to make of its answer; [`public_ip_resolver`] does the same for
//!   the address source.
//! - [`config`] turns the values of the configuration variables into
//!   settings.
pub mod address;
pub mod cadence;
pub mod capability;
pub mod cloud_dns;
pub mod config;
pub mod cycle;
pub mod error;
pub mod http;
pub mod public_ip_resolver;
pub mod route53_dns;
pub mod secret;
pub mod text;
pub mod watcher;

pub use address::PublicAddress;
pub use cadence::Cadence;
pub use capability::{DnsServerUpdator, PublicIpFetcher};
pub use error::{DnsServerUpdatorError, IcePartyWatcherError, PublicIpFetcherError};
pub use watcher::{Command, Event, IcePartyWatcher, Next, Observation};
