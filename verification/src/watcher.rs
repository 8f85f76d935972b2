//! The watcher: what it believes, and what it decides on each report.
//!
//! One cycle runs fetch, decide, and then either write and update, or skip.
//! The watcher can run a cycle itself, through the two capabilities, or leave
//! the calls to a driver: the driver awaits the ticks, asks the address
//! source and the record sink, and tells the watcher what came of it; the
//! watcher answers with what to do next.
use vstd::prelude::*;
use crate::address::PublicAddress;
use crate::cadence::{Cadence, DEFAULT_CADENCE_SECS};
use crate::capability::{DnsServerUpdator, PublicIpFetcher};
use crate::cycle::{cycle_belief, cycle_result, Answers};
use crate::error::{DnsServerUpdatorError, IcePartyWatcherError, PublicIpFetcherError};

verus! {

/// What the driver saw when it did what the watcher asked for within a cycle.
#[derive(Debug, PartialEq, Eq)]
pub enum Observation {
    /// The answer of the address source.
    Fetched(Result<PublicAddress, PublicIpFetcherError>),
    /// The answer of the record sink to a write of the given address.
    Written(PublicAddress, Result<(), DnsServerUpdatorError>),
}

/// How a cycle goes on after an observation.
#[derive(Clone, Copy, Debug, PartialEq, Eq, Structural)]
pub enum Next {
    /// Hand this address to the record sink, and report its answer.
    Write(PublicAddress),
    /// The cycle is over: nothing is left to do until the next tick.
    Done,
}

/// What the driver reports to a running watcher.
#[derive(Debug, PartialEq, Eq)]
pub enum Event {
    /// The time for the next cycle has come.
    Tick,
    /// A collaborator has answered.
    Observed(Observation),
}

/// What a running watcher asks of the driver.
#[derive(Debug, PartialEq, Eq)]
pub enum Command {
    /// Wait for the next tick of the cadence, and report it.
    AwaitTick,
    /// Ask the address source for the current address, and report its answer.
    Fetch,
    /// Hand this address to the record sink, and report its answer.
    Write(PublicAddress),
    /// Give up: the cycle failed, and the run ends with this error.
    Stop(IcePartyWatcherError),
}

/// Whether a fetched address has to be written, given the address that the
/// remote record is believed to hold: always, unless that very address is
/// believed to be there.
pub open spec fn needs_write(belief: Option<PublicAddress>, fetched: PublicAddress) -> bool {
    belief != Some(fetched)
}

/// The belief after an observation: the written address where a write
/// succeeded, the belief before it in every other case.
pub open spec fn belief_after(belief: Option<PublicAddress>, seen: Observation) -> Option<
    PublicAddress,
> {
    match seen {
        Observation::Written(ip, Ok(_)) => Some(ip),
        _ => belief,
    }
}

/// How the cycle goes on after an observation, or the error that ends it.
pub open spec fn outcome_of(belief: Option<PublicAddress>, seen: Observation) -> Result<
    Next,
    IcePartyWatcherError,
> {
    match seen {
        Observation::Fetched(Ok(ip)) => if needs_write(belief, ip) {
            Ok(Next::Write(ip))
        } else {
            Ok(Next::Done)
        },
        Observation::Fetched(Err(cause)) => Err(IcePartyWatcherError::FailToFetchIp(cause)),
        Observation::Written(_, Ok(_)) => Ok(Next::Done),
        Observation::Written(_, Err(cause)) => Err(IcePartyWatcherError::FailToUpdateDns(cause)),
    }
}

/// What a running watcher asks for on an event: a fetch on every tick, and
/// after an observation the next step of the cycle, the wait for the next
/// tick once the cycle is over, or the end of the run where the cycle failed.
pub open spec fn command_for(belief: Option<PublicAddress>, event: Event) -> Command {
    match event {
        Event::Tick => Command::Fetch,
        Event::Observed(seen) => match outcome_of(belief, seen) {
            Ok(Next::Write(ip)) => Command::Write(ip),
            Ok(Next::Done) => Command::AwaitTick,
            Err(error) => Command::Stop(error),
        },
    }
}

/// The belief after an event: a tick changes nothing.
pub open spec fn belief_on(belief: Option<PublicAddress>, event: Event) -> Option<PublicAddress> {
    match event {
        Event::Tick => belief,
        Event::Observed(seen) => belief_after(belief, seen),
    }
}

/// Keeps one remote record in step with the public address of this host.
///
/// The watcher holds the address that it believes the remote record to hold,
/// and the cadence of its cycles. It believes nothing until a write has
/// succeeded, and then believes the address last written with success; a
/// fetched address alone never changes the belief. The belief lives as long
/// as the value: a new watcher starts without one, and so writes on its
/// first cycle whatever the remote record holds.
pub struct IcePartyWatcher {
    ip_in_dns: Option<PublicAddress>,
    cadence: Cadence,
}

impl IcePartyWatcher {
    /// The address that the remote record is believed to hold.
    pub closed spec fn belief(&self) -> Option<PublicAddress> {
        self.ip_in_dns
    }

    /// The span between two cycles.
    pub closed spec fn period(&self) -> Cadence {
        self.cadence
    }

    /// A watcher without a belief, with the given cadence, or with one of
    /// ten minutes where none is given.
    pub fn new(cadence: Option<Cadence>) -> (r: Self)
        ensures
            r.belief() is None,
            cadence matches Some(c) ==> r.period() == c,
            cadence is None ==> r.period().whole_secs() == DEFAULT_CADENCE_SECS
                && r.period().extra_nanos() == 0,
    {
        let cadence = match cadence {
            Some(c) => c,
            None => Cadence::standard(),
        };
        IcePartyWatcher { ip_in_dns: None, cadence }
    }

    /// The address that the remote record is believed to hold.
    pub fn ip_in_dns(&self) -> (r: Option<PublicAddress>)
        ensures
            r == self.belief(),
    {
        self.ip_in_dns
    }

    /// The span between two cycles.
    pub fn cadence(&self) -> (r: Cadence)
        ensures
            r == self.period(),
    {
        self.cadence
    }

    /// Whether `new_ip` has to be written to the remote record.
    pub fn should_update(&self, new_ip: PublicAddress) -> (r: bool)
        ensures
            r == needs_write(self.belief(), new_ip),
    {
        match self.ip_in_dns {
            Some(ip_in_dns) => new_ip != ip_in_dns,
            None => true,
        }
    }

    /// Takes in what the driver saw and says how the cycle goes on.
    ///
    /// After a fetch the answer is to write the fetched address where it has
    /// to be written, and that the cycle is over where it has not. After a
    /// write that succeeded the written address becomes the belief, and the
    /// cycle is over. A fetch or a write that failed ends the cycle with its
    /// error and leaves the belief as it was. The watcher takes the driver
    /// at its word: what is reported as written is believed to be written.
    pub fn observe(&mut self, seen: Observation) -> (r: Result<Next, IcePartyWatcherError>)
        ensures
            r == outcome_of(old(self).belief(), seen),
            final(self).belief() == belief_after(old(self).belief(), seen),
            final(self).period() == old(self).period(),
    {
        match seen {
            Observation::Fetched(Ok(current_ip)) => {
                if self.should_update(current_ip) {
                    Ok(Next::Write(current_ip))
                } else {
                    Ok(Next::Done)
                }
            },
            Observation::Fetched(Err(cause)) => Err(IcePartyWatcherError::FailToFetchIp(cause)),
            Observation::Written(written_ip, Ok(_)) => {
                self.ip_in_dns = Some(written_ip);
                Ok(Next::Done)
            },
            Observation::Written(_, Err(cause)) => Err(
                IcePartyWatcherError::FailToUpdateDns(cause),
            ),
        }
    }

    /// Runs one cycle through the two capabilities: fetches the current
    /// address, and writes it where it has to be written.
    ///
    /// Whatever the capabilities answer, the cycle ends as those answers
    /// make it end: there are answers of the address source and of the
    /// record sink of which the result and the belief afterwards are those
    /// of a cycle. So the cycle fails exactly where the fetch or a write
    /// that was needed failed, the belief changes only to an address that
    /// was fetched in this cycle and written with success, a failed cycle
    /// leaves the belief as it was, and after a cycle that went well the
    /// watcher believes the address that it fetched.
    pub fn sync_ip<IF: PublicIpFetcher, DS: DnsServerUpdator>(
        &mut self,
        ip_fetcher: &IF,
        dns_server: &DS,
    ) -> (r: Result<(), IcePartyWatcherError>)
        ensures
            exists|answers: Answers|
                r == #[trigger] cycle_result(old(self).belief(), answers) && final(self).belief()
                    == cycle_belief(old(self).belief(), answers),
            r is Err ==> final(self).belief() == old(self).belief(),
            r is Ok ==> final(self).belief() is Some,
            final(self).period() == old(self).period(),
    {
        let fetched = ip_fetcher.current_ip();
        let ghost before = self.belief();
        // The answers that were given bear the claim out, with any answer in
        // the place of the sink's where the sink was not asked.
        match self.observe(Observation::Fetched(fetched)) {
            Ok(Next::Write(current_ip)) => {
                let written = dns_server.update_ip_in_dns(current_ip);
                let ghost answers = Answers { fetched, written };
                match self.observe(Observation::Written(current_ip, written)) {
                    Ok(_) => {
                        assert(Ok::<(), IcePartyWatcherError>(()) == cycle_result(before, answers));
                        Ok(())
                    },
                    Err(error) => {
                        assert(Err::<(), IcePartyWatcherError>(error) == cycle_result(
                            before,
                            answers,
                        ));
                        Err(error)
                    },
                }
            },
            Ok(Next::Done) => {
                let ghost answers = Answers { fetched, written: Ok(()) };
                assert(Ok::<(), IcePartyWatcherError>(()) == cycle_result(before, answers));
                Ok(())
            },
            Err(error) => {
                let ghost answers = Answers { fetched, written: Ok(()) };
                assert(Err::<(), IcePartyWatcherError>(error) == cycle_result(before, answers));
                Err(error)
            },
        }
    }

    /// Takes in an event and says what the driver has to do next.
    ///
    /// A driver starts by awaiting the first tick, and from then on performs
    /// each command and reports what came of it, until it is told to stop. A
    /// failed cycle is not tried again: the command after it is to stop.
    pub fn run(&mut self, event: Event) -> (r: Command)
        ensures
            r == command_for(old(self).belief(), event),
            final(self).belief() == belief_on(old(self).belief(), event),
            final(self).period() == old(self).period(),
    {
        match event {
            Event::Tick => Command::Fetch,
            Event::Observed(seen) => match self.observe(seen) {
                Ok(Next::Write(ip)) => Command::Write(ip),
                Ok(Next::Done) => Command::AwaitTick,
                Err(error) => Command::Stop(error),
            },
        }
    }
}

} // verus!
