//! Whole cycles, runs of cycles, and what holds of them.
//!
//! A driver that follows the watcher turns each tick into one cycle: it
//! reports the fetch, and where the watcher answers with a write, performs
//! it and reports that too. This module says what a cycle and a run of
//! cycles come to, from the watcher's single steps, and proves what the
//! design promises of them.
use vstd::prelude::*;
use crate::address::PublicAddress;
use crate::error::{DnsServerUpdatorError, IcePartyWatcherError, PublicIpFetcherError};
use crate::watcher::{
    belief_after, belief_on, command_for, needs_write, outcome_of, Command, Event, Next,
    Observation,
};

verus! {

/// What the two collaborators answer in one cycle.
pub struct Answers {
    /// The answer of the address source.
    pub fetched: Result<PublicAddress, PublicIpFetcherError>,
    /// The answer that the record sink gives if it is asked to write.
    pub written: Result<(), DnsServerUpdatorError>,
}

/// The addresses handed to the record sink in one cycle, in order: the
/// fetched address where the watcher answers the fetch with a write, and
/// nothing otherwise.
pub open spec fn cycle_writes(belief: Option<PublicAddress>, answers: Answers) -> Seq<
    PublicAddress,
> {
    match outcome_of(belief, Observation::Fetched(answers.fetched)) {
        Ok(Next::Write(ip)) => seq![ip],
        _ => Seq::empty(),
    }
}

/// The belief at the end of one cycle.
pub open spec fn cycle_belief(belief: Option<PublicAddress>, answers: Answers) -> Option<
    PublicAddress,
> {
    let fetched = Observation::Fetched(answers.fetched);
    match outcome_of(belief, fetched) {
        Ok(Next::Write(ip)) => belief_after(
            belief_after(belief, fetched),
            Observation::Written(ip, answers.written),
        ),
        _ => belief_after(belief, fetched),
    }
}

/// How one cycle ends: well, or with the error of the step that failed.
pub open spec fn cycle_result(belief: Option<PublicAddress>, answers: Answers) -> Result<
    (),
    IcePartyWatcherError,
> {
    let fetched = Observation::Fetched(answers.fetched);
    match outcome_of(belief, fetched) {
        Ok(Next::Write(ip)) => match outcome_of(
            belief_after(belief, fetched),
            Observation::Written(ip, answers.written),
        ) {
            Ok(_) => Ok(()),
            Err(error) => Err(error),
        },
        Ok(Next::Done) => Ok(()),
        Err(error) => Err(error),
    }
}

/// The addresses handed to the record sink over a run of cycles, in order.
/// The run ends with its first failed cycle: what would come after it is
/// never asked for.
pub open spec fn run_writes(belief: Option<PublicAddress>, cycles: Seq<Answers>) -> Seq<
    PublicAddress,
>
    decreases cycles.len(),
{
    if cycles.len() == 0 {
        Seq::empty()
    } else if cycle_result(belief, cycles.first()) is Err {
        cycle_writes(belief, cycles.first())
    } else {
        cycle_writes(belief, cycles.first()) + run_writes(
            cycle_belief(belief, cycles.first()),
            cycles.drop_first(),
        )
    }
}

/// The belief at the end of a run of cycles.
pub open spec fn run_belief(belief: Option<PublicAddress>, cycles: Seq<Answers>) -> Option<
    PublicAddress,
>
    decreases cycles.len(),
{
    if cycles.len() == 0 {
        belief
    } else if cycle_result(belief, cycles.first()) is Err {
        cycle_belief(belief, cycles.first())
    } else {
        run_belief(cycle_belief(belief, cycles.first()), cycles.drop_first())
    }
}

/// How a run of cycles ends: with the error of its first failed cycle, or
/// well where no cycle fails.
pub open spec fn run_result(belief: Option<PublicAddress>, cycles: Seq<Answers>) -> Result<
    (),
    IcePartyWatcherError,
>
    decreases cycles.len(),
{
    if cycles.len() == 0 {
        Ok(())
    } else if cycle_result(belief, cycles.first()) is Err {
        cycle_result(belief, cycles.first())
    } else {
        run_result(cycle_belief(belief, cycles.first()), cycles.drop_first())
    }
}

/// The belief changes only through a write that succeeded, and then to the
/// address that was written: a fetch never changes it, whatever it returns,
/// and neither does a write that failed.
pub proof fn lemma_belief_follows_successful_writes(
    belief: Option<PublicAddress>,
    seen: Observation,
)
    ensures
        seen matches Observation::Written(ip, Ok(_)) ==> belief_after(belief, seen) == Some(ip),
        !(seen matches Observation::Written(_, Ok(_))) ==> belief_after(belief, seen) == belief,
{
}

/// A driver that performs the commands of a running watcher goes through
/// the cycle: a tick makes it fetch; the fetch makes it write where the
/// cycle writes, wait for the next tick where the cycle is over, and stop
/// where the cycle failed; and the write makes it wait or stop as the cycle
/// ends. The belief after the last report is that at the end of the cycle.
pub proof fn lemma_commands_make_the_cycle(belief: Option<PublicAddress>, answers: Answers)
    ensures
        command_for(belief, Event::Tick) == Command::Fetch,
        belief_on(belief, Event::Tick) == belief,
        ({
            let fetched = Event::Observed(Observation::Fetched(answers.fetched));
            match command_for(belief, fetched) {
                Command::Write(ip) => {
                    let written = Event::Observed(Observation::Written(ip, answers.written));
                    let between = belief_on(belief, fetched);
                    &&& cycle_writes(belief, answers) == seq![ip]
                    &&& belief_on(between, written) == cycle_belief(belief, answers)
                    &&& command_for(between, written) == match cycle_result(belief, answers) {
                        Ok(_) => Command::AwaitTick,
                        Err(error) => Command::Stop(error),
                    }
                },
                Command::AwaitTick => {
                    &&& cycle_writes(belief, answers) == Seq::<PublicAddress>::empty()
                    &&& belief_on(belief, fetched) == cycle_belief(belief, answers)
                    &&& cycle_result(belief, answers) is Ok
                },
                Command::Stop(error) => {
                    &&& cycle_writes(belief, answers) == Seq::<PublicAddress>::empty()
                    &&& belief_on(belief, fetched) == cycle_belief(belief, answers)
                    &&& cycle_result(belief, answers) == Err::<(), IcePartyWatcherError>(error)
                },
                Command::Fetch => false,
            }
        }),
{
}

/// Once a write of an address has succeeded, cycles that fetch the same
/// address again never write: however many of them follow, the record sink
/// is not asked once, the belief stays, and the run does not fail.
pub proof fn lemma_unchanged_address_is_not_written_again(
    before: Option<PublicAddress>,
    ip: PublicAddress,
    cycles: Seq<Answers>,
)
    requires
        forall|i: int| 0 <= i < cycles.len() ==> (#[trigger] cycles[i]).fetched == Ok::<
            PublicAddress,
            PublicIpFetcherError,
        >(ip),
    ensures
        ({
            let belief = belief_after(before, Observation::Written(ip, Ok(())));
            &&& belief == Some(ip)
            &&& run_writes(belief, cycles) == Seq::<PublicAddress>::empty()
            &&& run_belief(belief, cycles) == belief
            &&& run_result(belief, cycles) is Ok
        }),
    decreases cycles.len(),
{
    if cycles.len() > 0 {
        assert(cycles[0].fetched == Ok::<PublicAddress, PublicIpFetcherError>(ip));
        assert forall|i: int| 0 <= i < cycles.drop_first().len() implies (
        #[trigger] cycles.drop_first()[i]).fetched == Ok::<PublicAddress, PublicIpFetcherError>(
            ip,
        ) by {
            assert(cycles.drop_first()[i] == cycles[i + 1]);
        }
        lemma_unchanged_address_is_not_written_again(Some(ip), ip, cycles.drop_first());
    }
}

/// A watcher that believes nothing answers every fetched address with a
/// write of that address.
pub proof fn lemma_first_fetch_is_written(ip: PublicAddress)
    ensures
        needs_write(None, ip),
        outcome_of(None, Observation::Fetched(Ok(ip))) == Ok::<Next, IcePartyWatcherError>(
            Next::Write(ip),
        ),
{
}

/// A fetched address that differs from the believed one is written, and
/// where the write succeeds it becomes the belief.
pub proof fn lemma_changed_address_is_written(
    believed: PublicAddress,
    fetched: PublicAddress,
    answers: Answers,
)
    requires
        believed != fetched,
        answers.fetched == Ok::<PublicAddress, PublicIpFetcherError>(fetched),
    ensures
        cycle_writes(Some(believed), answers) == seq![fetched],
        answers.written is Ok ==> cycle_belief(Some(believed), answers) == Some(fetched)
            && cycle_result(Some(believed), answers) is Ok,
{
}

/// A cycle whose write fails ends with the error of the write and leaves
/// the belief as it was, also where there was none.
pub proof fn lemma_failed_write_keeps_belief(belief: Option<PublicAddress>, answers: Answers)
    requires
        cycle_writes(belief, answers).len() > 0,
        answers.written is Err,
    ensures
        cycle_belief(belief, answers) == belief,
        cycle_result(belief, answers) == Err::<(), IcePartyWatcherError>(
            IcePartyWatcherError::FailToUpdateDns(answers.written->Err_0),
        ),
{
}

/// A cycle whose fetch fails ends with the error of the fetch: nothing is
/// written, and the belief stays as it was.
pub proof fn lemma_failed_fetch_ends_cycle(belief: Option<PublicAddress>, answers: Answers)
    requires
        answers.fetched is Err,
    ensures
        cycle_writes(belief, answers) == Seq::<PublicAddress>::empty(),
        cycle_belief(belief, answers) == belief,
        cycle_result(belief, answers) == Err::<(), IcePartyWatcherError>(
            IcePartyWatcherError::FailToFetchIp(answers.fetched->Err_0),
        ),
{
}

/// A new watcher writes in its first cycle whatever an earlier watcher came
/// to believe: the belief is not carried over, so the fetched address is
/// handed to the record sink even where the earlier watcher had written that
/// very address, and becomes the belief again where the write succeeds.
pub proof fn lemma_new_watcher_writes_again(
    earlier: Option<PublicAddress>,
    ip: PublicAddress,
    answers: Answers,
)
    requires
        answers.fetched == Ok::<PublicAddress, PublicIpFetcherError>(ip),
    ensures
        cycle_writes(None, answers) == seq![ip],
        earlier == Some(ip) ==> cycle_writes(earlier, answers) == Seq::<PublicAddress>::empty(),
        answers.written is Ok ==> cycle_belief(None, answers) == Some(ip),
{
}

} // verus!
