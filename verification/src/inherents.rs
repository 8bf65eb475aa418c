//! The inherent data of a block: the time, the slot, and what the parachain system takes from
//! the relay chain.

use crate::lazy::BuildOnAccess;
use sp_consensus_aura::inherents::InherentDataProvider;
use sp_consensus_aura::SlotDuration;
use sp_timestamp::Timestamp;
use std::sync::Arc;
use vstd::prelude::*;

verus! {

/// The number of the Aura slot that a point in time falls into. Both arguments are in
/// milliseconds, the first since the Unix epoch.
pub open spec fn slot_at(timestamp: u64, slot_duration: u64) -> int {
    timestamp as int / slot_duration as int
}

/// Calls `InherentDataProvider::from_timestamp_and_slot_duration` of
/// `sp_consensus_aura::inherents`, and reads the slot that the provider holds. The contract
/// claims that this is the time divided by the duration of a slot, rounded down. The function
/// divides, so a duration of zero is left out.
#[verifier::external_body]
fn aura_slot(timestamp: u64, slot_duration: u64) -> (slot: u64)
    requires
        slot_duration > 0,
    ensures
        slot as int == slot_at(timestamp, slot_duration),
{
    **InherentDataProvider::from_timestamp_and_slot_duration(
        Timestamp::new(timestamp),
        SlotDuration::from_millis(slot_duration),
    )
}

/// Why there is no inherent data.
#[derive(Clone, Copy, Debug, PartialEq, Eq, Structural)]
pub enum InherentError {
    /// The inherent of the parachain system could not be created.
    ParachainInherent,
}

impl InherentError {
    /// The error in words.
    pub fn message(&self) -> (text: &'static str)
        ensures
            text@ == "Failed to create parachain inherent"@,
    {
        "Failed to create parachain inherent"
    }
}

/// Tells slots. The duration of a slot, in milliseconds, is read off the chain once and kept.
#[derive(Clone, Copy, Debug, PartialEq, Eq, Structural)]
pub struct SlotClock {
    pub slot_duration: u64,
}

impl SlotClock {
    /// `inherents` is what a block that is verified when the time is `timestamp` is checked
    /// against: the slot and the time, both of that one reading.
    pub open spec fn checks_against(self, timestamp: u64, inherents: (u64, u64)) -> bool {
        &&& inherents.0 as int == slot_at(timestamp, self.slot_duration)
        &&& inherents.1 == timestamp
    }

    /// `inherents` is what goes into a block that is written when the time is `timestamp`: the
    /// slot and the time, both of that one reading, and the parachain inherent; or the error
    /// where the last could not be created.
    pub open spec fn puts_in<P>(
        self,
        parachain_inherent: Option<P>,
        timestamp: u64,
        inherents: Result<(u64, u64, P), InherentError>,
    ) -> bool {
        match parachain_inherent {
            Some(parachain) => inherents matches Ok(data) && {
                &&& data.0 as int == slot_at(timestamp, self.slot_duration)
                &&& data.1 == timestamp
                &&& data.2 == parachain
            },
            None => inherents == Err::<(u64, u64, P), _>(InherentError::ParachainInherent),
        }
    }

    /// The slot and the time that a block is checked against by the rules of Aura.
    pub fn verifier_inherents(&self, timestamp: u64) -> (inherents: (u64, u64))
        requires
            self.slot_duration > 0,
        ensures
            self.checks_against(timestamp, inherents),
            inherents.0 * self.slot_duration <= timestamp < (inherents.0 + 1) * self.slot_duration,
            inherents.1 == timestamp,
    {
        proof {
            law_time_lies_in_slot(timestamp, self.slot_duration);
        }
        (aura_slot(timestamp, self.slot_duration), timestamp)
    }

    /// The slot, the time and the parachain inherent of a block that Aura writes, where the last
    /// could be created.
    pub fn aura_inherents<P>(&self, parachain_inherent: Option<P>, timestamp: u64) -> (inherents:
        Result<(u64, u64, P), InherentError>)
        requires
            self.slot_duration > 0,
        ensures
            self.puts_in(parachain_inherent, timestamp, inherents),
            inherents is Ok <==> parachain_inherent is Some,
            inherents matches Ok(data) ==> {
                &&& data.0 * self.slot_duration <= timestamp < (data.0 + 1) * self.slot_duration
                &&& data.1 == timestamp
                &&& Some(data.2) == parachain_inherent
            },
            inherents matches Err(error) ==> error == InherentError::ParachainInherent,
    {
        proof {
            law_time_lies_in_slot(timestamp, self.slot_duration);
        }
        let slot = aura_slot(timestamp, self.slot_duration);
        match parachain_inherent {
            Some(parachain) => Ok((slot, timestamp, parachain)),
            None => Err(InherentError::ParachainInherent),
        }
    }
}

/// Builds an Aura engine or verifier for a client: reads the duration of a slot off its chain,
/// this one time, and hands on a clock that keeps it. A chain from which the duration cannot be
/// read is left out.
pub struct ClockBuilder<Client, D, B> {
    pub client: Arc<Client>,
    /// Reads the duration of a slot, in milliseconds.
    pub slot_duration: D,
    /// Builds by a clock.
    pub build: B,
}

impl<Client, D, B> ClockBuilder<Client, D, B> {
    /// Whether the builder may be run: the duration can be read.
    pub open spec fn can_build<R, X>(self) -> bool where
        D: FnOnce(Arc<Client>) -> Result<u64, X>,
        B: FnOnce(SlotClock, Arc<Client>) -> R,
     {
        &&& call_requires(self.slot_duration, (self.client,))
        &&& forall|read: Result<u64, X>| #[trigger]
            call_ensures(self.slot_duration, (self.client,), read) ==> read is Ok && call_requires(
                self.build,
                (SlotClock { slot_duration: read->Ok_0 }, self.client),
            )
    }

    /// Whether `value` is what may come of one reading of the duration of a slot.
    pub open spec fn builds<R, X>(self, value: R) -> bool where
        D: FnOnce(Arc<Client>) -> Result<u64, X>,
        B: FnOnce(SlotClock, Arc<Client>) -> R,
     {
        exists|duration: u64| #[trigger]
            call_ensures(self.slot_duration, (self.client,), Ok(duration)) && call_ensures(
                self.build,
                (SlotClock { slot_duration: duration }, self.client),
                value,
            )
    }

    /// Reads the duration of a slot, and builds by a clock that keeps it.
    pub fn build<R, X: std::fmt::Debug>(self) -> (value: R) where
        D: FnOnce(Arc<Client>) -> Result<u64, X>,
        B: FnOnce(SlotClock, Arc<Client>) -> R,

        requires
            self.can_build(),
        ensures
            self.builds(value),
            exists|duration: u64| #[trigger]
                call_ensures(self.slot_duration, (self.client,), Ok(duration)) && call_ensures(
                    self.build,
                    (SlotClock { slot_duration: duration }, self.client),
                    value,
                ),
    {
        let duration = (self.slot_duration)(self.client.clone()).unwrap();
        (self.build)(SlotClock { slot_duration: duration }, self.client)
    }
}

impl<Client, R, X, D, B> BuildOnAccess<R, ClockBuilder<Client, D, B>> where
    X: std::fmt::Debug,
    D: FnOnce(Arc<Client>) -> Result<u64, X>,
    B: FnOnce(SlotClock, Arc<Client>) -> R,
 {
    /// There is a value, or a builder that may be run.
    pub open spec fn buildable(self) -> bool {
        match self {
            Self::Uninitialized(Some(builder)) => builder.can_build(),
            Self::Uninitialized(None) => false,
            Self::Initialized(_) => true,
        }
    }

    /// `value` is what an access may find: the value that is there, or one that the builder
    /// returns.
    pub open spec fn yields(self, value: R) -> bool {
        match self {
            Self::Uninitialized(Some(builder)) => builder.builds(value),
            Self::Uninitialized(None) => false,
            Self::Initialized(present) => present == value,
        }
    }

    /// Gives access to the value, and builds it first where that has not happened yet.
    ///
    /// From then on the cell holds whatever the caller leaves behind the reference.
    pub fn get_mut(&mut self) -> (value: &mut R)
        requires
            old(self).buildable(),
        ensures
            old(self).yields(*value),
            match *old(self) {
                Self::Uninitialized(Some(builder)) => exists|duration: u64| #[trigger]
                    call_ensures(builder.slot_duration, (builder.client,), Ok(duration))
                        && call_ensures(
                        builder.build,
                        (SlotClock { slot_duration: duration }, builder.client),
                        *value,
                    ),
                Self::Uninitialized(None) => false,
                Self::Initialized(present) => *value == present,
            },
            *final(self) == BuildOnAccess::<R, ClockBuilder<Client, D, B>>::Initialized(
                *final(value),
            ),
    {
        loop
            invariant
                self.buildable(),
                forall|value: R| self.yields(value) ==> old(self).yields(value),
            decreases (if *self is Uninitialized { 1int } else { 0int }),
        {
            match self {
                Self::Uninitialized(slot) => {
                    let builder = slot.take().unwrap();
                    *self = Self::Initialized(builder.build());
                },
                Self::Initialized(value) => return value,
            }
        }
    }
}

/// The parachain inherent of a block that is written at the word of the relay chain, where it
/// could be created.
pub fn relay_chain_inherents<P>(parachain_inherent: Option<P>) -> (inherents: Result<
    P,
    InherentError,
>)
    ensures
        match parachain_inherent {
            Some(parachain) => inherents == Ok::<P, InherentError>(parachain),
            None => inherents == Err::<P, _>(InherentError::ParachainInherent),
        },
{
    match parachain_inherent {
        Some(parachain) => Ok(parachain),
        None => Err(InherentError::ParachainInherent),
    }
}

/// A point in time lies in its slot: not before the slot begins, and before the next one does.
pub proof fn law_time_lies_in_slot(timestamp: u64, slot_duration: u64)
    requires
        slot_duration > 0,
    ensures
        slot_at(timestamp, slot_duration) * slot_duration <= timestamp,
        timestamp < (slot_at(timestamp, slot_duration) + 1) * slot_duration,
{
    assert(timestamp as int / slot_duration as int * slot_duration as int <= timestamp
        && timestamp < (timestamp as int / slot_duration as int + 1) * slot_duration as int)
        by (nonlinear_arith)
        requires
            slot_duration > 0,
    ;
}

/// Slots never run backwards: a later time lies in the same slot or in a later one.
pub proof fn law_slots_follow_time(earlier: u64, later: u64, slot_duration: u64)
    requires
        slot_duration > 0,
        earlier <= later,
    ensures
        slot_at(earlier, slot_duration) <= slot_at(later, slot_duration),
{
    vstd::arithmetic::div_mod::lemma_div_is_ordered(
        earlier as int,
        later as int,
        slot_duration as int,
    );
}

/// A block that is written at any time has inherent data if and only if the parachain inherent
/// could be created. It then holds that very inherent, the time, and the one slot that the time
/// lies in. Otherwise the error is that the parachain inherent is missing.
pub proof fn law_aura_writes_whenever_inherent_is_there<P>(
    clock: SlotClock,
    parachain_inherent: Option<P>,
    timestamp: u64,
    inherents: Result<(u64, u64, P), InherentError>,
)
    requires
        clock.slot_duration > 0,
        clock.puts_in(parachain_inherent, timestamp, inherents),
    ensures
        parachain_inherent matches Some(parachain) ==> {
            &&& inherents is Ok
            &&& inherents->Ok_0.2 == parachain
            &&& inherents->Ok_0.1 == timestamp
            &&& inherents->Ok_0.0 * clock.slot_duration <= timestamp < (inherents->Ok_0.0 + 1)
                * clock.slot_duration
        },
        parachain_inherent is None ==> {
            inherents == Err::<(u64, u64, P), _>(InherentError::ParachainInherent)
        },
{
    law_time_lies_in_slot(timestamp, clock.slot_duration);
}

/// A block that is verified at any time is checked against that time, and against the one slot
/// that the time lies in.
pub proof fn law_verifier_checks_time_and_its_slot(
    clock: SlotClock,
    timestamp: u64,
    inherents: (u64, u64),
)
    requires
        clock.slot_duration > 0,
    ensures
        clock.checks_against(timestamp, inherents) <==> {
            &&& inherents.1 == timestamp
            &&& inherents.0 * clock.slot_duration <= timestamp < (inherents.0 + 1)
                * clock.slot_duration
        },
{
    law_time_lies_in_slot(timestamp, clock.slot_duration);
    let slot = slot_at(timestamp, clock.slot_duration);
    let other = inherents.0 as int;
    let duration = clock.slot_duration as int;
    if other * duration <= timestamp < (other + 1) * duration && other != slot {
        assert(false) by (nonlinear_arith)
            requires
                duration > 0,
                other != slot,
                other * duration <= timestamp < (other + 1) * duration,
                slot * duration <= timestamp < (slot + 1) * duration,
        ;
    }
}

/// A builder by a clock may be run if and only if the duration of a slot can be read and building
/// goes with whatever is read; and what it builds is built for its client, by a clock with just
/// the duration that was read for that client.
pub proof fn law_clock_keeps_duration_as_read<
    Client,
    R,
    X,
    D: FnOnce(Arc<Client>) -> Result<u64, X>,
    B: FnOnce(SlotClock, Arc<Client>) -> R,
>(client: Arc<Client>, slot_duration: D, build: B, built: R)
    ensures
        ({
            let builder = ClockBuilder { client, slot_duration, build };
            &&& builder.can_build() <==> {
                &&& call_requires(slot_duration, (client,))
                &&& forall|error: X| !call_ensures(slot_duration, (client,), Err(error))
                &&& forall|duration: u64|
                    call_ensures(slot_duration, (client,), Ok(duration)) ==> call_requires(
                        build,
                        (SlotClock { slot_duration: duration }, client),
                    )
            }
            &&& builder.builds(built) <==> exists|duration: u64|
                call_ensures(slot_duration, (client,), Ok(duration)) && call_ensures(
                    build,
                    (SlotClock { slot_duration: duration }, client),
                    built,
                )
        }),
{
    let builder = ClockBuilder { client, slot_duration, build };
    if builder.can_build() {
        assert forall|error: X| !call_ensures(slot_duration, (client,), Err(error)) by {
            let read: Result<u64, X> = Err(error);
            assert(call_ensures(builder.slot_duration, (builder.client,), read) ==> read is Ok);
        }
        assert forall|duration: u64|
            call_ensures(slot_duration, (client,), Ok(duration)) implies call_requires(
            build,
            (SlotClock { slot_duration: duration }, client),
        ) by {
            let read: Result<u64, X> = Ok(duration);
            assert(call_ensures(builder.slot_duration, (builder.client,), read));
        }
    }
    if (call_requires(slot_duration, (client,)) && forall|error: X|
        !call_ensures(slot_duration, (client,), Err(error))) && forall|duration: u64|
        call_ensures(slot_duration, (client,), Ok(duration)) ==> call_requires(
            build,
            (SlotClock { slot_duration: duration }, client),
        ) {
        assert forall|read: Result<u64, X>| #[trigger]
            call_ensures(builder.slot_duration, (builder.client,), read) implies read is Ok
            && call_requires(
            builder.build,
            (SlotClock { slot_duration: read->Ok_0 }, builder.client),
        ) by {
            match read {
                Ok(duration) => assert(call_ensures(slot_duration, (client,), Ok(duration))),
                Err(error) => assert(call_ensures(slot_duration, (client,), Err(error))),
            }
        }
    }
}

/// An access to a cell with a builder by a clock finds what is there, and else what the builder
/// builds; it may be made where there is a value or a builder that may be run, and only there.
pub proof fn law_cell_finds_value_or_builds<
    Client,
    R,
    X: std::fmt::Debug,
    D: FnOnce(Arc<Client>) -> Result<u64, X>,
    B: FnOnce(SlotClock, Arc<Client>) -> R,
>(builder: ClockBuilder<Client, D, B>, present: R, found: R)
    ensures
        ({
            let unbuilt = BuildOnAccess::<R, ClockBuilder<Client, D, B>>::Uninitialized(
                Some(builder),
            );
            let gone = BuildOnAccess::<R, ClockBuilder<Client, D, B>>::Uninitialized(None);
            let built = BuildOnAccess::<R, ClockBuilder<Client, D, B>>::Initialized(present);
            &&& unbuilt.buildable() <==> builder.can_build()
            &&& unbuilt.yields(found) <==> builder.builds(found)
            &&& !gone.buildable() && !gone.yields(found)
            &&& built.buildable()
            &&& built.yields(found) <==> found == present
        }),
{
}

/// One duration goes for all blocks: whatever times are read, in whatever order, each block is
/// checked against the time divided by the clock's one duration, rounded down, and against that
/// same time; a block that is written at a time has the slot and the time that it would be checked
/// against then; and where time went on, slots did not go back.
pub proof fn law_one_duration_for_all_blocks<P>(
    clock: SlotClock,
    readings: Seq<u64>,
    checked: Seq<(u64, u64)>,
    created: Seq<Option<P>>,
    written: Seq<Result<(u64, u64, P), InherentError>>,
)
    requires
        clock.slot_duration > 0,
        checked.len() == readings.len(),
        created.len() == readings.len(),
        written.len() == readings.len(),
        forall|i: int|
            0 <= i < readings.len() ==> clock.checks_against(readings[i], #[trigger] checked[i]),
        forall|i: int|
            0 <= i < readings.len() ==> clock.puts_in(
                created[i],
                readings[i],
                #[trigger] written[i],
            ),
    ensures
        forall|i: int|
            0 <= i < readings.len() ==> (#[trigger] checked[i]).0 as int == readings[i] as int
                / clock.slot_duration as int && checked[i].1 == readings[i],
        forall|i: int|
            0 <= i < readings.len() ==> ((#[trigger] written[i]) matches Ok(data) ==> (
                data.0,
                data.1,
            ) == checked[i]),
        forall|i: int, j: int|
            0 <= i < readings.len() && 0 <= j < readings.len() && readings[i] <= readings[j]
                ==> (#[trigger] checked[i]).0 <= (#[trigger] checked[j]).0,
{
    assert forall|i: int, j: int|
        0 <= i < readings.len() && 0 <= j < readings.len() && readings[i] <= readings[j] implies (
    #[trigger] checked[i]).0 <= (#[trigger] checked[j]).0 by {
        law_slots_follow_time(readings[i], readings[j], clock.slot_duration);
    }
}

/// At every time, and with slots of whatever duration, the inherent data that the Aura engine
/// takes are there if and only if the parachain inherent is; they are the slot that the time lies
/// in, the time, and that very inherent.
pub proof fn law_aura_inherents<P>(
    clock: SlotClock,
    parachain_inherent: Option<P>,
    timestamp: u64,
    inherents: Result<(u64, u64, P), InherentError>,
)
    requires
        clock.slot_duration > 0,
        call_ensures(
            SlotClock::aura_inherents::<P>,
            (&clock, parachain_inherent, timestamp),
            inherents,
        ),
    ensures
        parachain_inherent matches Some(parachain) ==> {
            &&& inherents is Ok
            &&& inherents->Ok_0.0 * clock.slot_duration <= timestamp < (inherents->Ok_0.0 + 1)
                * clock.slot_duration
            &&& inherents->Ok_0.1 == timestamp
            &&& inherents->Ok_0.2 == parachain
        },
        parachain_inherent is None ==> inherents is Err,
        call_requires(
            SlotClock::aura_inherents::<P>,
            (&clock, parachain_inherent, timestamp),
        ),
{
}

/// At every time, and with slots of whatever duration, a verifier is given the slot that the time
/// lies in, and the time.
pub proof fn law_verifier_inherents(clock: SlotClock, timestamp: u64, inherents: (u64, u64))
    requires
        clock.slot_duration > 0,
        call_ensures(SlotClock::verifier_inherents, (&clock, timestamp), inherents),
    ensures
        inherents.0 * clock.slot_duration <= timestamp < (inherents.0 + 1) * clock.slot_duration,
        inherents.1 == timestamp,
        call_requires(SlotClock::verifier_inherents, (&clock, timestamp)),
{
}

/// A block that is written at the word of the relay chain has the very parachain inherent that was
/// created, and fails only for want of it.
pub proof fn law_relay_chain_inherents<P>(
    parachain_inherent: Option<P>,
    inherents: Result<P, InherentError>,
)
    requires
        call_ensures(relay_chain_inherents::<P>, (parachain_inherent,), inherents),
    ensures
        inherents is Ok <==> parachain_inherent is Some,
        inherents matches Ok(parachain) ==> Some(parachain) == parachain_inherent,
        call_requires(relay_chain_inherents::<P>, (parachain_inherent,)),
{
}

/// The error in words is the same text for every error.
pub proof fn law_error_in_words(error: InherentError, text: &'static str)
    requires
        call_ensures(InherentError::message, (&error,), text),
    ensures
        text@ == "Failed to create parachain inherent"@,
{
}

} // verus!
