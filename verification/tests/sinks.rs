use ice_party_watch::cloud_dns::CloudDns;
use ice_party_watch::http::HttpStatus;
use ice_party_watch::public_ip_resolver::PublicIpResolver;
use ice_party_watch::route53_dns::{ChangeAction, RecordType, Route53Dns};
use ice_party_watch::{DnsServerUpdatorError, PublicAddress, PublicIpFetcherError};

fn cloud_dns() -> CloudDns {
    CloudDns::new(
        "key-1".to_string(),
        "home-zone".to_string(),
        "host.example.org.".to_string(),
        "ya29.token".to_string(),
        "my-project".to_string(),
    )
}

#[test]
fn cloud_dns_request_names_the_record_and_carries_the_address() {
    let request = cloud_dns().update_request("203.0.113.5");
    assert_eq!(
        request.url,
        "https://dns.googleapis.com/dns/v1/projects/my-project/managedZones/home-zone/rrsets/host.example.org./A?key=key-1"
    );
    assert_eq!(request.authorization, "Bearer ya29.token");
    assert_eq!(request.accept, "application/json");
    assert_eq!(request.content_type, "application/json");
    assert_eq!(request.body, "{\"rrdatas\":[\"203.0.113.5\"]}");
}

#[test]
fn cloud_dns_request_with_empty_texts() {
    let sink = CloudDns::new(String::new(), String::new(), String::new(), String::new(), String::new());
    let request = sink.update_request("");
    assert_eq!(
        request.url,
        "https://dns.googleapis.com/dns/v1/projects//managedZones//rrsets//A?key="
    );
    assert_eq!(request.authorization, "Bearer ");
    assert_eq!(request.body, "{\"rrdatas\":[\"\"]}");
}

#[test]
fn cloud_dns_request_is_the_same_each_time() {
    let sink = cloud_dns();
    let first = sink.update_request("198.51.100.9");
    let second = sink.update_request("198.51.100.9");
    assert_eq!(first.url, second.url);
    assert_eq!(first.authorization, second.authorization);
    assert_eq!(first.body, second.body);
    assert_eq!(second.body, "{\"rrdatas\":[\"198.51.100.9\"]}");
}

#[test]
fn rejected_answer_holds_status_line_and_quoted_body() {
    let error = CloudDns::rejection(HttpStatus::new(404).unwrap(), Ok("no such zone".to_string()));
    assert_eq!(
        error,
        DnsServerUpdatorError::ErrorResponse(
            "status: 404 Not Found. error: \"no such zone\"".to_string()
        )
    );
}

#[test]
fn rejected_answer_escapes_the_body() {
    let error = CloudDns::rejection(
        HttpStatus::new(400).unwrap(),
        Ok("{\"error\": \"bad\"}\n".to_string()),
    );
    assert_eq!(
        error.message(),
        "status: 400 Bad Request. error: \"{\\\"error\\\": \\\"bad\\\"}\\n\""
    );
}

#[test]
fn rejected_answer_with_a_status_without_reason() {
    let error = CloudDns::rejection(HttpStatus::new(999).unwrap(), Ok(String::new()));
    assert_eq!(
        error,
        DnsServerUpdatorError::ErrorResponse(
            "status: 999 <unknown status code>. error: \"\"".to_string()
        )
    );
}

#[test]
fn answer_with_unreadable_body_is_an_other_failure() {
    let error = CloudDns::rejection(
        HttpStatus::new(500).unwrap(),
        Err("error decoding response body".to_string()),
    );
    assert_eq!(
        error,
        DnsServerUpdatorError::Other("invalid error body: error decoding response body".to_string())
    );
}

#[test]
fn error_response_is_built_from_its_parts() {
    assert_eq!(
        CloudDns::error_response("403 Forbidden", "\"denied\""),
        DnsServerUpdatorError::ErrorResponse("status: 403 Forbidden. error: \"denied\"".to_string())
    );
    assert_eq!(
        CloudDns::error_response("", ""),
        DnsServerUpdatorError::ErrorResponse("status: . error: ".to_string())
    );
}

#[test]
fn undelivered_request_is_a_send_failure() {
    assert_eq!(
        DnsServerUpdatorError::delivery::<()>(Err("connection refused".to_string())),
        Err(DnsServerUpdatorError::FailedToSend("connection refused".to_string()))
    );
    assert_eq!(DnsServerUpdatorError::delivery(Ok(())), Ok(()));
    let status = HttpStatus::new(204).unwrap();
    assert_eq!(DnsServerUpdatorError::delivery(Ok(status)), Ok(status));
}

#[test]
fn status_codes_have_three_digits() {
    assert_eq!(HttpStatus::new(0), None);
    assert_eq!(HttpStatus::new(99), None);
    assert_eq!(HttpStatus::new(100).map(|s| s.as_u16()), Some(100));
    assert_eq!(HttpStatus::new(999).map(|s| s.as_u16()), Some(999));
    assert_eq!(HttpStatus::new(1000), None);
    assert_eq!(HttpStatus::new(u16::MAX), None);
}

#[test]
fn success_is_the_two_hundreds() {
    let success = |code: u16| HttpStatus::new(code).unwrap().is_success();
    assert!(!success(100));
    assert!(!success(199));
    assert!(success(200));
    assert!(success(204));
    assert!(success(299));
    assert!(!success(300));
    assert!(!success(404));
    assert!(!success(500));
    assert!(!success(999));
}

#[test]
fn status_line_is_code_and_reason() {
    assert_eq!(HttpStatus::new(200).unwrap().line(), "200 OK");
    assert_eq!(HttpStatus::new(403).unwrap().line(), "403 Forbidden");
    assert_eq!(HttpStatus::new(503).unwrap().line(), "503 Service Unavailable");
    assert_eq!(HttpStatus::new(299).unwrap().line(), "299 <unknown status code>");
}

#[test]
fn route53_ttl_is_ten_minutes_unless_given() {
    let sink = Route53Dns::new("host.example.org", "Z123", None);
    assert_eq!(sink.update_request("203.0.113.5").ttl, 600);
    let sink = Route53Dns::new("host.example.org", "Z123", Some(30));
    assert_eq!(sink.update_request("203.0.113.5").ttl, 30);
    let sink = Route53Dns::new("host.example.org", "Z123", Some(0));
    assert_eq!(sink.update_request("203.0.113.5").ttl, 0);
    let sink = Route53Dns::new("host.example.org", "Z123", Some(-1));
    assert_eq!(sink.update_request("203.0.113.5").ttl, -1);
}

#[test]
fn route53_change_is_an_upsert_of_the_a_record() {
    let sink = Route53Dns::new("host.example.org", "Z123", Some(300));
    let change = sink.update_request("198.51.100.9");
    assert_eq!(change.hosted_zone_id, "Z123");
    assert_eq!(change.comment, "Update IP address");
    assert_eq!(change.action, ChangeAction::Upsert);
    assert_eq!(change.name, "host.example.org");
    assert_eq!(change.ttl, 300);
    assert_eq!(change.record_type, RecordType::A);
    assert_eq!(change.value, "198.51.100.9");
    // writing the same address twice asks for the same change
    assert_eq!(change, sink.update_request("198.51.100.9"));
}

#[test]
fn resolver_passes_on_what_was_found() {
    let resolver = PublicIpResolver::new();
    let ip = PublicAddress::V4(203, 0, 113, 5);
    assert_eq!(resolver.current_ip(Some(ip)), Ok(ip));
    let v6 = PublicAddress::V6(0x2001, 0xdb8, 0, 0, 0, 0, 0, 1);
    assert_eq!(resolver.current_ip(Some(v6)), Ok(v6));
}

#[test]
fn resolver_reports_that_nothing_was_found() {
    let resolver = PublicIpResolver::new();
    assert_eq!(
        resolver.current_ip(None),
        Err(PublicIpFetcherError::NotAbleToFetch(
            "Couldn't get the public IP address".to_string()
        ))
    );
}
