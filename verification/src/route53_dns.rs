//! The record sink that speaks to Amazon Route 53.
//!
//! The sink here says which change to ask for. Asking is left to the
//! caller, which holds the client.
use vstd::prelude::*;
use vstd::string::*;

verus! {

/// The time to live of the record where none is given, in seconds.
pub const DEFAULT_TTL: i64 = 600;

/// What a change does to a record set.
#[derive(Clone, Copy, Debug, PartialEq, Eq, Structural)]
pub enum ChangeAction {
    Create,
    Delete,
    /// Creates the record set where there is none, and replaces it where
    /// there is one.
    Upsert,
}

/// The type of a record set that holds an address.
#[derive(Clone, Copy, Debug, PartialEq, Eq, Structural)]
pub enum RecordType {
    A,
    Aaaa,
}

/// The one record of a hosted zone that the sink writes.
pub struct Route53Dns {
    record_name: String,
    zone_id: String,
    ttl: i64,
}

/// What a `Route53Dns` holds, as plain values.
pub struct Route53DnsView {
    pub record_name: Seq<char>,
    pub zone_id: Seq<char>,
    pub ttl: i64,
}

/// One change to one record set of a hosted zone, as a batch of its own.
#[derive(Debug, PartialEq, Eq)]
pub struct RecordChange {
    pub hosted_zone_id: String,
    /// The comment on the batch.
    pub comment: String,
    pub action: ChangeAction,
    /// The name of the record set.
    pub name: String,
    /// The time to live of the record set, in seconds.
    pub ttl: i64,
    pub record_type: RecordType,
    /// The value of the record set's only record.
    pub value: String,
}

impl View for Route53Dns {
    type V = Route53DnsView;

    closed spec fn view(&self) -> Route53DnsView {
        Route53DnsView {
            record_name: self.record_name@,
            zone_id: self.zone_id@,
            ttl: self.ttl,
        }
    }
}

impl Route53Dns {
    /// The sink for the record `record_name` in the hosted zone `zone_id`,
    /// written with the time to live `ttl`, or with one of ten minutes
    /// where none is given.
    pub fn new(record_name: &str, zone_id: &str, ttl: Option<i64>) -> (r: Self)
        ensures
            r@.record_name == record_name@,
            r@.zone_id == zone_id@,
            r@.ttl == (match ttl {
                Some(seconds) => seconds,
                None => DEFAULT_TTL,
            }),
    {
        let ttl = match ttl {
            Some(seconds) => seconds,
            None => DEFAULT_TTL,
        };
        Route53Dns {
            record_name: String::from_str(record_name),
            zone_id: String::from_str(zone_id),
            ttl,
        }
    }

    /// The change that sets the record to the address `ip`, given as text:
    /// an upsert of the record set of type `A` under the sink's name, with
    /// the sink's time to live and the address as its only value.
    pub fn update_request(&self, ip: &str) -> (r: RecordChange)
        ensures
            r.hosted_zone_id@ == self@.zone_id,
            r.comment@ == "Update IP address"@,
            r.action == ChangeAction::Upsert,
            r.name@ == self@.record_name,
            r.ttl == self@.ttl,
            r.record_type == RecordType::A,
            r.value@ == ip@,
    {
        RecordChange {
            hosted_zone_id: self.zone_id.clone(),
            comment: String::from_str("Update IP address"),
            action: ChangeAction::Upsert,
            name: self.record_name.clone(),
            ttl: self.ttl,
            record_type: RecordType::A,
            value: String::from_str(ip),
        }
    }
}

} // verus!
