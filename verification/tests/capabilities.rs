use ice_party_watch::cloud_dns::CloudDns;
use ice_party_watch::http::HttpStatus;
use ice_party_watch::{
    DnsServerUpdator, DnsServerUpdatorError, IcePartyWatcher, IcePartyWatcherError, PublicAddress,
    PublicIpFetcher, PublicIpFetcherError,
};
use std::cell::{Cell, RefCell};
use std::collections::VecDeque;

/// An address source that answers from a script, and counts how often it is
/// asked.
struct Source {
    answers: RefCell<VecDeque<Result<PublicAddress, PublicIpFetcherError>>>,
    asked: Cell<usize>,
}

impl Source {
    fn answering(answers: Vec<Result<PublicAddress, PublicIpFetcherError>>) -> Self {
        Source { answers: RefCell::new(answers.into()), asked: Cell::new(0) }
    }
}

impl PublicIpFetcher for Source {
    fn current_ip(&self) -> Result<PublicAddress, PublicIpFetcherError> {
        self.asked.set(self.asked.get() + 1);
        self.answers.borrow_mut().pop_front().expect("the script has no more fetches")
    }
}

/// A record sink that answers from a script, and keeps what it was asked to
/// write. Where the script has run out, it accepts.
struct Sink {
    answers: RefCell<VecDeque<Result<(), DnsServerUpdatorError>>>,
    writes: RefCell<Vec<PublicAddress>>,
}

impl Sink {
    fn accepting() -> Self {
        Sink::answering(vec![])
    }

    fn answering(answers: Vec<Result<(), DnsServerUpdatorError>>) -> Self {
        Sink { answers: RefCell::new(answers.into()), writes: RefCell::new(Vec::new()) }
    }

    fn writes(&self) -> Vec<PublicAddress> {
        self.writes.borrow().clone()
    }
}

impl DnsServerUpdator for Sink {
    fn update_ip_in_dns(&self, ip: PublicAddress) -> Result<(), DnsServerUpdatorError> {
        self.writes.borrow_mut().push(ip);
        self.answers.borrow_mut().pop_front().unwrap_or(Ok(()))
    }
}

fn fetch_error() -> PublicIpFetcherError {
    PublicIpFetcherError::NotAbleToFetch("Couldn't get the public IP address".to_string())
}

fn rejected() -> DnsServerUpdatorError {
    CloudDns::rejection(HttpStatus::new(403).unwrap(), Ok("denied".to_string()))
}

/// A watcher that believes `ip` to be in the record, after one good cycle.
fn believing(ip: PublicAddress) -> IcePartyWatcher {
    let mut watcher = IcePartyWatcher::new(None);
    assert_eq!(watcher.sync_ip(&Source::answering(vec![Ok(ip)]), &Sink::accepting()), Ok(()));
    assert_eq!(watcher.ip_in_dns(), Some(ip));
    watcher
}

#[test]
fn scenario_fresh_watcher_writes_once() {
    let source = Source::answering(vec![Ok(PublicAddress::V4(203, 0, 113, 5))]);
    let sink = Sink::accepting();
    let mut watcher = IcePartyWatcher::new(None);
    assert_eq!(watcher.sync_ip(&source, &sink), Ok(()));
    assert_eq!(sink.writes(), vec![PublicAddress::V4(203, 0, 113, 5)]);
    assert_eq!(watcher.ip_in_dns(), Some(PublicAddress::V4(203, 0, 113, 5)));
    assert_eq!(source.asked.get(), 1);
}

#[test]
fn scenario_same_address_again_writes_nothing() {
    let mut watcher = believing(PublicAddress::V4(203, 0, 113, 5));
    let source = Source::answering(vec![Ok(PublicAddress::V4(203, 0, 113, 5))]);
    let sink = Sink::accepting();
    assert_eq!(watcher.sync_ip(&source, &sink), Ok(()));
    assert_eq!(sink.writes(), vec![]);
    assert_eq!(watcher.ip_in_dns(), Some(PublicAddress::V4(203, 0, 113, 5)));
}

#[test]
fn scenario_new_address_is_written_once() {
    let mut watcher = believing(PublicAddress::V4(203, 0, 113, 5));
    let source = Source::answering(vec![Ok(PublicAddress::V4(198, 51, 100, 9))]);
    let sink = Sink::accepting();
    assert_eq!(watcher.sync_ip(&source, &sink), Ok(()));
    assert_eq!(sink.writes(), vec![PublicAddress::V4(198, 51, 100, 9)]);
    assert_eq!(watcher.ip_in_dns(), Some(PublicAddress::V4(198, 51, 100, 9)));
}

#[test]
fn scenario_rejected_write_keeps_the_old_address() {
    let mut watcher = believing(PublicAddress::V4(203, 0, 113, 5));
    let source = Source::answering(vec![Ok(PublicAddress::V4(198, 51, 100, 9))]);
    let sink = Sink::answering(vec![Err(rejected())]);
    let result = watcher.sync_ip(&source, &sink);
    assert_eq!(
        result,
        Err(IcePartyWatcherError::FailToUpdateDns(DnsServerUpdatorError::ErrorResponse(
            "status: 403 Forbidden. error: \"denied\"".to_string()
        )))
    );
    assert_eq!(sink.writes(), vec![PublicAddress::V4(198, 51, 100, 9)]);
    assert_eq!(watcher.ip_in_dns(), Some(PublicAddress::V4(203, 0, 113, 5)));
}

#[test]
fn scenario_failed_fetch_writes_nothing() {
    for mut watcher in [IcePartyWatcher::new(None), believing(PublicAddress::V4(203, 0, 113, 5))] {
        let before = watcher.ip_in_dns();
        let source = Source::answering(vec![Err(fetch_error())]);
        let sink = Sink::accepting();
        assert_eq!(
            watcher.sync_ip(&source, &sink),
            Err(IcePartyWatcherError::FailToFetchIp(fetch_error()))
        );
        assert_eq!(sink.writes(), vec![]);
        assert_eq!(watcher.ip_in_dns(), before);
    }
}

#[test]
fn steady_address_is_written_once_over_many_cycles() {
    let home = PublicAddress::V6(0x2001, 0xdb8, 0, 0, 0, 0, 0, 0x17);
    let source = Source::answering((0..100).map(|_| Ok(home)).collect());
    let sink = Sink::accepting();
    let mut watcher = IcePartyWatcher::new(None);
    for _ in 0..100 {
        assert_eq!(watcher.sync_ip(&source, &sink), Ok(()));
        assert_eq!(watcher.ip_in_dns(), Some(home));
    }
    assert_eq!(source.asked.get(), 100);
    assert_eq!(sink.writes(), vec![home]);
}

#[test]
fn each_change_is_written_as_it_comes() {
    let a = PublicAddress::V4(203, 0, 113, 5);
    let b = PublicAddress::V4(198, 51, 100, 9);
    let source = Source::answering(vec![Ok(a), Ok(a), Ok(b), Ok(b), Ok(a), Ok(b)]);
    let sink = Sink::accepting();
    let mut watcher = IcePartyWatcher::new(None);
    for _ in 0..6 {
        assert_eq!(watcher.sync_ip(&source, &sink), Ok(()));
    }
    assert_eq!(sink.writes(), vec![a, b, a, b]);
    assert_eq!(watcher.ip_in_dns(), Some(b));
}

#[test]
fn failed_first_write_leaves_no_belief_and_is_tried_again() {
    let home = PublicAddress::V4(203, 0, 113, 5);
    let source = Source::answering(vec![Ok(home), Ok(home)]);
    let sink = Sink::answering(vec![Err(DnsServerUpdatorError::FailedToSend(
        "connection refused".to_string(),
    ))]);
    let mut watcher = IcePartyWatcher::new(None);
    assert_eq!(
        watcher.sync_ip(&source, &sink),
        Err(IcePartyWatcherError::FailToUpdateDns(DnsServerUpdatorError::FailedToSend(
            "connection refused".to_string()
        )))
    );
    assert_eq!(watcher.ip_in_dns(), None);
    assert_eq!(watcher.sync_ip(&source, &sink), Ok(()));
    assert_eq!(sink.writes(), vec![home, home]);
    assert_eq!(watcher.ip_in_dns(), Some(home));
}

#[test]
fn new_watcher_writes_what_the_record_holds_already() {
    let home = PublicAddress::V4(203, 0, 113, 5);
    let sink = Sink::accepting();
    let mut first = IcePartyWatcher::new(None);
    assert_eq!(first.sync_ip(&Source::answering(vec![Ok(home)]), &sink), Ok(()));
    let mut second = IcePartyWatcher::new(None);
    assert_eq!(second.ip_in_dns(), None);
    assert_eq!(second.sync_ip(&Source::answering(vec![Ok(home)]), &sink), Ok(()));
    assert_eq!(sink.writes(), vec![home, home]);
    assert_eq!(second.ip_in_dns(), Some(home));
}

#[test]
fn cycle_keeps_the_cadence() {
    let mut watcher = IcePartyWatcher::new(None);
    let cadence = watcher.cadence();
    let _ = watcher.sync_ip(&Source::answering(vec![Err(fetch_error())]), &Sink::accepting());
    let _ = watcher.sync_ip(
        &Source::answering(vec![Ok(PublicAddress::V4(203, 0, 113, 5))]),
        &Sink::accepting(),
    );
    assert_eq!(watcher.cadence(), cadence);
    assert_eq!(watcher.cadence().secs(), 600);
}
