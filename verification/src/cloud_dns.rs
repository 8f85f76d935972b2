//! The record sink that speaks to Google Cloud DNS.
//!
//! The sink here says what to send and what to make of the answer. Sending
//! is left to the caller, which holds the HTTP client.
use vstd::prelude::*;
use vstd::string::*;
use crate::error::DnsServerUpdatorError;
use crate::http::{status_line, HttpStatus};
use crate::secret::{expose, seal, secret_text, Credential};
use crate::text::{debug_text, quoted};

verus! {

/// The one record of a managed zone that the sink writes, and the
/// credentials to write it with.
pub struct CloudDns {
    token: Credential,
    // Google credential key ID
    key_id: Credential,
    managed_zone: String,
    record_name: String,
    project_id: String,
}

/// What a `CloudDns` holds, as plain texts.
pub struct CloudDnsView {
    pub token: Seq<char>,
    pub key_id: Seq<char>,
    pub managed_zone: Seq<char>,
    pub record_name: Seq<char>,
    pub project_id: Seq<char>,
}

/// A `PATCH` request, ready to be sent: where to, with which headers, and
/// with what body.
pub struct PatchRequest {
    pub url: String,
    /// The value of the `Authorization` header.
    pub authorization: String,
    /// The value of the `Accept` header.
    pub accept: String,
    /// The value of the `Content-Type` header.
    pub content_type: String,
    pub body: String,
}

/// The address of the record set of type `A` under the given names, with
/// the key as its query.
pub open spec fn record_url(sink: CloudDnsView) -> Seq<char> {
    "https://dns.googleapis.com/dns/v1/projects/"@ + sink.project_id + "/managedZones/"@
        + sink.managed_zone + "/rrsets/"@ + sink.record_name + "/A?key="@ + sink.key_id
}

/// The bearer authorization that carries the token.
pub open spec fn bearer(token: Seq<char>) -> Seq<char> {
    "Bearer "@ + token
}

/// The body that replaces the record's data with the one address.
pub open spec fn record_body(ip: Seq<char>) -> Seq<char> {
    "{\"rrdatas\":[\""@ + ip + "\"]}"@
}

/// The text of the error for an answer that was not a success, from its
/// status line and its body in quotes.
pub open spec fn rejection_text(line: Seq<char>, quoted_body: Seq<char>) -> Seq<char> {
    "status: "@ + line + ". error: "@ + quoted_body
}

/// The text of the error for an answer whose body could not be read.
pub open spec fn unreadable_text(why: Seq<char>) -> Seq<char> {
    "invalid error body: "@ + why
}

impl View for CloudDns {
    type V = CloudDnsView;

    closed spec fn view(&self) -> CloudDnsView {
        CloudDnsView {
            token: secret_text(self.token),
            key_id: secret_text(self.key_id),
            managed_zone: self.managed_zone@,
            record_name: self.record_name@,
            project_id: self.project_id@,
        }
    }
}

impl CloudDns {
    /// The sink for the record `record_name` in the zone `managed_zone` of
    /// the project `project_id`, written with the key `key_id` and the
    /// access token `token`. The key and the token are sealed at once.
    pub fn new(
        key_id: String,
        managed_zone: String,
        record_name: String,
        token: String,
        project_id: String,
    ) -> (r: Self)
        ensures
            r@ == (CloudDnsView {
                token: token@,
                key_id: key_id@,
                managed_zone: managed_zone@,
                record_name: record_name@,
                project_id: project_id@,
            }),
    {
        Self {
            token: seal(token),
            key_id: seal(key_id),
            managed_zone,
            project_id,
            record_name,
        }
    }

    /// The request that sets the record to the address `ip`, given as text.
    pub fn update_request(&self, ip: &str) -> (r: PatchRequest)
        ensures
            r.url@ == record_url(self@),
            r.authorization@ == bearer(self@.token),
            r.accept@ == "application/json"@,
            r.content_type@ == "application/json"@,
            r.body@ == record_body(ip@),
    {
        let mut url = String::from_str("https://dns.googleapis.com/dns/v1/projects/");
        url.append(self.project_id.as_str());
        url.append("/managedZones/");
        url.append(self.managed_zone.as_str());
        url.append("/rrsets/");
        url.append(self.record_name.as_str());
        url.append("/A?key=");
        url.append(expose(&self.key_id).as_str());

        let mut authorization = String::from_str("Bearer ");
        authorization.append(expose(&self.token).as_str());

        let mut body = String::from_str("{\"rrdatas\":[\"");
        body.append(ip);
        body.append("\"]}");

        PatchRequest {
            url,
            authorization,
            accept: String::from_str("application/json"),
            content_type: String::from_str("application/json"),
            body,
        }
    }

    /// The error for an answer that was not a success and whose body was
    /// read, from the status line of the answer and its body in quotes: an
    /// `ErrorResponse` that holds both.
    pub fn error_response(line: &str, quoted_body: &str) -> (r: DnsServerUpdatorError)
        ensures
            r matches DnsServerUpdatorError::ErrorResponse(message) && message@
                == rejection_text(line@, quoted_body@),
    {
        let mut message = String::from_str("status: ");
        message.append(line);
        message.append(". error: ");
        message.append(quoted_body);
        DnsServerUpdatorError::ErrorResponse(message)
    }

    /// The error for an answer with a status other than success, given the
    /// body of the answer or the reason why it could not be read. A body
    /// that was read makes an `ErrorResponse`, with the status line and the
    /// quoted body in its text; one that was not makes an `Other`.
    pub fn rejection(status: HttpStatus, body: Result<String, String>) -> (r:
        DnsServerUpdatorError)
        ensures
            body matches Ok(text) ==> (r matches DnsServerUpdatorError::ErrorResponse(message)
                && message@ == rejection_text(status_line(status.code()), debug_text(text@))),
            body matches Err(why) ==> (r matches DnsServerUpdatorError::Other(message)
                && message@ == unreadable_text(why@)),
    {
        match body {
            Ok(text) => CloudDns::error_response(
                status.line().as_str(),
                quoted(text.as_str()).as_str(),
            ),
            Err(why) => {
                let mut message = String::from_str("invalid error body: ");
                message.append(why.as_str());
                DnsServerUpdatorError::Other(message)
            },
        }
    }
}

} // verus!
