//! Writing blocks: the choice between the two consensus engines, and how they are set up.

use crate::header::{blake_two_256, Header};
use crate::inherents::{ClockBuilder, SlotClock};
use crate::lazy::BuildOnAccess;
use futures::lock::Mutex;
use std::marker::PhantomData;
use std::sync::Arc;
use vstd::prelude::*;

verus! {

/// The asynchronous lock `futures::lock::Mutex`. Nothing is claimed of it: values of it are
/// only carried along.
#[verifier::external_type_specification]
#[verifier::external_body]
#[verifier::reject_recursive_types(T)]
pub struct ExMutex<T: ?Sized>(Mutex<T>);

/// `futures::lock::Mutex::new`, which puts a value behind a lock. It takes any value. Nothing is
/// claimed of the lock: what it holds changes over time, and is only seen by waiting for it.
pub assume_specification<T>[ Mutex::<T>::new ](t: T) -> (lock: Mutex<T>);

/// Calls a function.
fn apply<A, B, G: FnOnce(A) -> B>(function: G, argument: A) -> (result: B)
    requires
        call_requires(function, (argument,)),
    ensures
        call_ensures(function, (argument,), result),
{
    function(argument)
}

/// Whether a runtime offers the Aura API, going by the reply to that question. It does not
/// where the question could not be answered.
pub fn offers_aura<E>(reply: Result<bool, E>) -> (offered: bool)
    ensures
        offered == (reply == Ok::<bool, E>(true)),
{
    match reply {
        Ok(offered) => offered,
        Err(_) => false,
    }
}

/// The engine that is to write a block, behind its lock.
#[verifier::reject_recursive_types(R)]
#[verifier::reject_recursive_types(F)]
pub enum Engine<'a, R, F> {
    /// The Aura engine, which is built when it is first accessed.
    Aura(&'a Arc<Mutex<BuildOnAccess<R, F>>>),
    /// The engine that leaves it to the relay chain who writes.
    RelayChain(&'a Arc<Mutex<R>>),
}

/// A consensus that waits for the chain to be upgraded from the shell to a runtime that offers
/// the Aura API. Until then it leaves it to the relay chain who writes blocks.
#[verifier::reject_recursive_types(R)]
#[verifier::reject_recursive_types(F)]
pub struct WaitForAuraConsensus<Client, AuraId, R, F> {
    pub client: Arc<Client>,
    pub aura_consensus: Arc<Mutex<BuildOnAccess<R, F>>>,
    pub relay_chain_consensus: Arc<Mutex<R>>,
    pub _phantom: PhantomData<AuraId>,
}

impl<Client, AuraId, R, F> Clone for WaitForAuraConsensus<Client, AuraId, R, F> {
    /// The copy shares the client and both engines.
    fn clone(&self) -> (copy: Self)
        ensures
            copy == *self,
    {
        Self {
            client: self.client.clone(),
            aura_consensus: self.aura_consensus.clone(),
            relay_chain_consensus: self.relay_chain_consensus.clone(),
            _phantom: PhantomData,
        }
    }
}

impl<Client, AuraId, R, F> WaitForAuraConsensus<Client, AuraId, R, F> {
    /// The engine that goes with a reply to the question for the Aura API.
    pub open spec fn engine<'a, E>(self, reply: Result<bool, E>) -> Engine<'a, R, F> {
        if reply == Ok::<bool, E>(true) {
            Engine::Aura(&self.aura_consensus)
        } else {
            Engine::RelayChain(&self.relay_chain_consensus)
        }
    }

    /// Picks the engine, going by a reply to the question for the Aura API.
    pub fn select<E>(&self, reply: Result<bool, E>) -> (engine: Engine<'_, R, F>)
        ensures
            engine == self.engine(reply),
            reply == Ok::<bool, E>(true) ==> engine is Aura && *engine->Aura_0
                == self.aura_consensus,
            reply != Ok::<bool, E>(true) ==> engine is RelayChain && *engine->RelayChain_0
                == self.relay_chain_consensus,
    {
        if offers_aura(reply) {
            Engine::Aura(&self.aura_consensus)
        } else {
            Engine::RelayChain(&self.relay_chain_consensus)
        }
    }

    /// Picks the engine that is to write a block on top of the block `at`. `has_aura_api` is
    /// asked whether the runtime offers the Aura API at that block.
    pub fn select_at<E, Q: FnOnce([u8; 32]) -> Result<bool, E>>(
        &self,
        at: [u8; 32],
        has_aura_api: Q,
    ) -> (engine: Engine<'_, R, F>)
        requires
            call_requires(has_aura_api, (at,)),
        ensures
            exists|reply: Result<bool, E>| #[trigger]
                call_ensures(has_aura_api, (at,), reply) && engine == self.engine(reply),
    {
        self.select(has_aura_api(at))
    }

    /// Picks the engine that is to write a block on top of the block of `parent`, going by
    /// whether the runtime offers the Aura API there.
    pub fn produce_candidate<E, Q: FnOnce([u8; 32]) -> Result<bool, E>>(
        &self,
        parent: &Header,
        has_aura_api: Q,
    ) -> (engine: Engine<'_, R, F>)
        requires
            forall|at: [u8; 32]|
                at@ == parent.block_hash() ==> #[trigger] call_requires(has_aura_api, (at,)),
        ensures
            exists|at: [u8; 32], reply: Result<bool, E>|
                {
                    &&& at@ == blake_two_256(parent.encoded@)
                    &&& at@ == parent.block_hash()
                    &&& #[trigger] call_ensures(has_aura_api, (at,), reply)
                    &&& engine == self.engine(reply)
                },
    {
        self.select_at(parent.hash(), has_aura_api)
    }
}

/// Puts the consensus of a parachain together, each engine behind a lock.
///
/// The relay chain engine is built at once, for the client; the Aura engine is left unbuilt, with
/// a builder for the same client, which runs when the engine is first accessed: it reads the
/// duration of a slot then, and builds the engine by a clock that keeps it.
pub fn build_consensus<Client, AuraId, R, X, D, A, B>(
    client: Arc<Client>,
    slot_duration: D,
    build_aura: A,
    build_relay_chain: B,
) -> (consensus: WaitForAuraConsensus<Client, AuraId, R, ClockBuilder<Client, D, A>>) where
    D: FnOnce(Arc<Client>) -> Result<u64, X>,
    A: FnOnce(SlotClock, Arc<Client>) -> R,
    B: FnOnce(Arc<Client>) -> R,

    requires
        call_requires(build_relay_chain, (client,)),
    ensures
        consensus.client == client,
        call_ensures(
            Mutex::<BuildOnAccess<R, ClockBuilder<Client, D, A>>>::new,
            (
                BuildOnAccess::Uninitialized(
                    Some(ClockBuilder { client, slot_duration, build: build_aura }),
                ),
            ),
            *consensus.aura_consensus,
        ),
        exists|relay_chain: R| #[trigger]
            call_ensures(build_relay_chain, (client,), relay_chain) && call_ensures(
                Mutex::<R>::new,
                (relay_chain,),
                *consensus.relay_chain_consensus,
            ),
{
    let aura_consensus = BuildOnAccess::Uninitialized(
        Some(ClockBuilder { client: client.clone(), slot_duration, build: build_aura }),
    );
    let relay_chain_consensus = build_relay_chain(client.clone());
    WaitForAuraConsensus {
        client,
        aura_consensus: Arc::new(
            apply(Mutex::<BuildOnAccess<R, ClockBuilder<Client, D, A>>>::new, aura_consensus),
        ),
        relay_chain_consensus: Arc::new(apply(Mutex::<R>::new, relay_chain_consensus)),
        _phantom: PhantomData,
    }
}

/// One request for a candidate: the consensus or the copy of it that it was made through, whoever
/// was asked for the Aura API and the reply; and, where that turns it to the Aura engine, the
/// engine that the access found and what was left in its place.
#[verifier::reject_recursive_types(R)]
#[verifier::reject_recursive_types(F)]
pub struct Requested<Client, AuraId, R, F, Q, E> {
    pub through: WaitForAuraConsensus<Client, AuraId, R, F>,
    pub parent: Header,
    pub has_aura_api: Q,
    pub asked_at: [u8; 32],
    pub reply: Result<bool, E>,
    pub found: R,
    pub left: R,
}

impl<Client, AuraId, R, F, Q, E> Requested<Client, AuraId, R, F, Q, E> {
    /// Whether the runtime offered the Aura API at the parent.
    pub open spec fn by_aura(self) -> bool {
        self.reply == Ok::<bool, E>(true)
    }
}

/// What the cell of the Aura engine holds after some requests.
pub open spec fn after_requests<Client, AuraId, R, F, Q, E>(
    cell: BuildOnAccess<R, F>,
    requests: Seq<Requested<Client, AuraId, R, F, Q, E>>,
) -> BuildOnAccess<R, F>
    decreases requests.len(),
{
    if requests.len() == 0 {
        cell
    } else if requests.last().by_aura() {
        BuildOnAccess::Initialized(requests.last().left)
    } else {
        after_requests(cell, requests.drop_last())
    }
}

/// What was last left in the place of the Aura engine, if it was ever turned to.
pub open spec fn last_engine<Client, AuraId, R, F, Q, E>(
    requests: Seq<Requested<Client, AuraId, R, F, Q, E>>,
) -> Option<R>
    decreases requests.len(),
{
    if requests.len() == 0 {
        None
    } else if requests.last().by_aura() {
        Some(requests.last().left)
    } else {
        last_engine(requests.drop_last())
    }
}

/// Whether requests may have gone like this, one after the other, where the shared lock of the
/// Aura engine held `cell` at first: each picks its engine by a call of `produce_candidate`, and
/// accesses the cell by a call of `get_mut` where that is the Aura engine.
pub open spec fn requested_in_turn<
    Client,
    AuraId,
    R,
    X: std::fmt::Debug,
    D: FnOnce(Arc<Client>) -> Result<u64, X>,
    A: FnOnce(SlotClock, Arc<Client>) -> R,
    E,
    Q: FnOnce([u8; 32]) -> Result<bool, E>,
>(
    cell: BuildOnAccess<R, ClockBuilder<Client, D, A>>,
    requests: Seq<Requested<Client, AuraId, R, ClockBuilder<Client, D, A>, Q, E>>,
) -> bool
    decreases requests.len(),
{
    requests.len() > 0 ==> {
        let last = requests.last();
        &&& requested_in_turn(cell, requests.drop_last())
        &&& last.asked_at@ == blake_two_256(last.parent.encoded@)
        &&& call_ensures(last.has_aura_api, (last.asked_at,), last.reply)
        &&& last.by_aura() ==> after_requests(cell, requests.drop_last()).yields(last.found)
    }
}

/// However many candidates have been requested through a consensus and its copies, which of the
/// engines the next one is requested of is settled by the reply at its parent alone, and it is the
/// one engine behind the one lock that they all share. The Aura engine is accessed at just those
/// requests at whose parent the runtime offers the Aura API. The first of them finds what the
/// builder returns, for which the duration of a slot is read then; every later one finds the very
/// engine that the one before it left, so that the builder never runs again. Until the first of
/// them the builder stays in place, not run.
pub proof fn law_candidates_share_engines<
    Client,
    AuraId,
    R,
    X: std::fmt::Debug,
    D: FnOnce(Arc<Client>) -> Result<u64, X>,
    A: FnOnce(SlotClock, Arc<Client>) -> R,
    E,
    Q: FnOnce([u8; 32]) -> Result<bool, E>,
>(
    consensus: WaitForAuraConsensus<Client, AuraId, R, ClockBuilder<Client, D, A>>,
    builder: ClockBuilder<Client, D, A>,
    requests: Seq<Requested<Client, AuraId, R, ClockBuilder<Client, D, A>, Q, E>>,
)
    requires
        requested_in_turn(BuildOnAccess::Uninitialized(Some(builder)), requests),
        forall|i: int|
            0 <= i < requests.len() ==> (#[trigger] requests[i]).through == consensus,
        requests.len() > 0,
    ensures
        ({
            let last = requests.last();
            let before = requests.drop_last();
            let unbuilt = BuildOnAccess::<R, _>::Uninitialized(Some(builder));
            &&& last.asked_at@ == blake_two_256(last.parent.encoded@)
            &&& call_ensures(last.has_aura_api, (last.asked_at,), last.reply)
            &&& last.through.engine(last.reply) == consensus.engine(last.reply)
            &&& last.by_aura() <==> last.through.engine(last.reply) is Aura
            &&& last.by_aura() ==> {
                &&& *last.through.engine(last.reply)->Aura_0 == consensus.aura_consensus
                &&& match last_engine(before) {
                    Some(left) => last.found == left,
                    None => builder.builds(last.found),
                }
                &&& after_requests(unbuilt, requests) == BuildOnAccess::<
                    R,
                    ClockBuilder<Client, D, A>,
                >::Initialized(last.left)
            }
            &&& !last.by_aura() ==> {
                &&& *last.through.engine(last.reply)->RelayChain_0
                    == consensus.relay_chain_consensus
                &&& after_requests(unbuilt, requests) == after_requests(unbuilt, before)
            }
            &&& last_engine(requests) is None ==> after_requests(unbuilt, requests) == unbuilt
        }),
{
    let unbuilt = BuildOnAccess::<R, _>::Uninitialized(Some(builder));
    lemma_after_requests(unbuilt, requests);
    lemma_after_requests(unbuilt, requests.drop_last());
}

/// Where the cell of the Aura engine stands after some requests.
proof fn lemma_after_requests<Client, AuraId, R, F, Q, E>(
    cell: BuildOnAccess<R, F>,
    requests: Seq<Requested<Client, AuraId, R, F, Q, E>>,
)
    ensures
        after_requests(cell, requests) == (match last_engine(requests) {
            Some(left) => BuildOnAccess::Initialized(left),
            None => cell,
        }),
    decreases requests.len(),
{
    if requests.len() > 0 {
        lemma_after_requests(cell, requests.drop_last());
    }
}

/// A share of a slot.
#[derive(Clone, Copy, Debug, PartialEq, Eq, Structural)]
pub struct SlotPortion {
    pub numerator: u32,
    pub denominator: u32,
}

impl SlotPortion {
    /// How much of a slot the share is, rounded down, in the unit that the slot is given in.
    pub open spec fn of(self, slot_duration: int) -> int {
        slot_duration * self.numerator as int / self.denominator as int
    }
}

/// How the Aura engine is set up.
#[derive(Clone, Copy, Debug, PartialEq, Eq)]
pub struct AuraConsensusParams {
    /// In milliseconds.
    pub slot_duration: u64,
    pub force_authoring: bool,
    /// The share of a slot in which a block is proposed.
    pub block_proposal_slot_portion: SlotPortion,
    /// The largest share that is granted where slots have been skipped.
    pub max_block_proposal_slot_portion: Option<SlotPortion>,
    /// When to hold back, where finality lags: never.
    pub backoff_authoring_blocks: Option<()>,
}

/// The set-up of the Aura engine for slots of a duration.
pub open spec fn aura_params(slot_duration: u64, force_authoring: bool) -> AuraConsensusParams {
    AuraConsensusParams {
        slot_duration,
        force_authoring,
        block_proposal_slot_portion: SlotPortion { numerator: 1, denominator: 24 },
        max_block_proposal_slot_portion: Some(SlotPortion { numerator: 1, denominator: 16 }),
        backoff_authoring_blocks: None,
    }
}

/// Sets the Aura engine up for slots of a duration.
pub fn aura_consensus_params(slot_duration: u64, force_authoring: bool) -> (params:
    AuraConsensusParams)
    ensures
        params == aura_params(slot_duration, force_authoring),
        params.slot_duration == slot_duration,
        params.force_authoring == force_authoring,
        params.block_proposal_slot_portion == (SlotPortion { numerator: 1, denominator: 24 }),
        params.max_block_proposal_slot_portion == Some(
            SlotPortion { numerator: 1, denominator: 16 },
        ),
        params.backoff_authoring_blocks is None,
{
    AuraConsensusParams {
        slot_duration,
        force_authoring,
        // Around 500 ms of a slot of 12 s.
        block_proposal_slot_portion: SlotPortion { numerator: 1, denominator: 24 },
        // And at most 750 ms of it.
        max_block_proposal_slot_portion: Some(SlotPortion { numerator: 1, denominator: 16 }),
        backoff_authoring_blocks: None,
    }
}

/// However long a slot is, the time for proposing a block is no more than the most that is ever
/// granted, and that lies within the slot.
pub proof fn law_proposal_fits_slot(slot_duration: u64, force_authoring: bool)
    ensures
        ({
            let params = aura_params(slot_duration, force_authoring);
            let most = params.max_block_proposal_slot_portion->0;
            0 <= params.block_proposal_slot_portion.of(slot_duration as int) <= most.of(
                slot_duration as int,
            ) <= slot_duration
        }),
{
    let duration = slot_duration as int;
    vstd::arithmetic::mul::lemma_mul_basics(duration);
    vstd::arithmetic::div_mod::lemma_div_is_ordered_by_denominator(duration, 16, 24);
    vstd::arithmetic::div_mod::lemma_div_is_ordered_by_denominator(duration, 1, 16);
    vstd::arithmetic::div_mod::lemma_div_basics(duration);
}

/// The Aura engine is set up with the duration of a slot and with the will to author that it is
/// given, whatever they are; it has a twenty-fourth of a slot to propose a block, a sixteenth of it
/// at most, and never holds back.
pub proof fn law_aura_is_set_up_as_given(
    slot_duration: u64,
    force_authoring: bool,
    params: AuraConsensusParams,
)
    requires
        params == aura_params(slot_duration, force_authoring) || call_ensures(
            aura_consensus_params,
            (slot_duration, force_authoring),
            params,
        ),
    ensures
        params.slot_duration == slot_duration,
        params.force_authoring == force_authoring,
        ({
            let usual = params.block_proposal_slot_portion;
            usual.denominator == 24 * usual.numerator && usual.numerator > 0
        }),
        params.max_block_proposal_slot_portion matches Some(most) && most.denominator == 16
            * most.numerator && most.numerator > 0,
        params.backoff_authoring_blocks is None,
        call_requires(aura_consensus_params, (slot_duration, force_authoring)),
{
}

/// A share of a slot is that share: what it is of a slot, times its denominator, is the duration of
/// the slot times its numerator, up to what is rounded off.
pub proof fn law_portion_of_slot(portion: SlotPortion, slot_duration: u64)
    requires
        portion.denominator > 0,
    ensures
        ({
            let share = portion.of(slot_duration as int);
            share * portion.denominator <= slot_duration * portion.numerator < (share + 1)
                * portion.denominator
        }),
{
    let whole = slot_duration * portion.numerator;
    let parts = portion.denominator as int;
    assert(whole / parts * parts <= whole < (whole / parts + 1) * parts) by (nonlinear_arith)
        requires
            parts > 0,
    ;
}

/// Only the reply that the API is offered counts as an offer; a question that could not be answered
/// does not.
pub proof fn law_only_yes_is_an_offer<E>(reply: Result<bool, E>, offered: bool)
    requires
        call_ensures(offers_aura::<E>, (reply,), offered),
    ensures
        match reply {
            Ok(said) => offered == said,
            Err(_) => !offered,
        },
        call_requires(offers_aura::<E>, (reply,)),
{
}

/// The engine that is picked is the Aura engine of the consensus where the API is offered, and its
/// relay chain engine in every other case.
pub proof fn law_engine_goes_with_reply<Client, AuraId, R, F, E>(
    consensus: WaitForAuraConsensus<Client, AuraId, R, F>,
    reply: Result<bool, E>,
    engine: Engine<'_, R, F>,
)
    requires
        engine == consensus.engine(reply) || call_ensures(
            WaitForAuraConsensus::<Client, AuraId, R, F>::select::<E>,
            (&consensus, reply),
            engine,
        ),
    ensures
        match reply {
            Ok(true) => engine is Aura && *engine->Aura_0 == consensus.aura_consensus,
            Ok(false) => {
                engine is RelayChain && *engine->RelayChain_0 == consensus.relay_chain_consensus
            },
            Err(_) => {
                engine is RelayChain && *engine->RelayChain_0 == consensus.relay_chain_consensus
            },
        },
        call_requires(
            WaitForAuraConsensus::<Client, AuraId, R, F>::select::<E>,
            (&consensus, reply),
        ),
{
}

/// Whoever requests a candidate on top of a parent asks for the Aura API at the hash of the whole
/// encoding of the parent, however long that is, and nowhere else; and turns to the engine that
/// goes with the reply.
pub proof fn law_candidate_asks_at_hash_of_parent<
    Client,
    AuraId,
    R,
    F,
    E,
    Q: FnOnce([u8; 32]) -> Result<bool, E>,
>(
    consensus: WaitForAuraConsensus<Client, AuraId, R, F>,
    parent: Header,
    has_aura_api: Q,
    engine: Engine<'_, R, F>,
)
    requires
        call_ensures(
            WaitForAuraConsensus::<Client, AuraId, R, F>::produce_candidate::<E, Q>,
            (&consensus, &parent, has_aura_api),
            engine,
        ),
    ensures
        exists|at: [u8; 32], reply: Result<bool, E>|
            {
                &&& at@ == blake_two_256(parent.encoded@)
                &&& #[trigger] call_ensures(has_aura_api, (at,), reply)
                &&& match engine {
                    Engine::Aura(aura) => {
                        reply == Ok::<bool, E>(true) && *aura == consensus.aura_consensus
                    },
                    Engine::RelayChain(relay_chain) => {
                        reply != Ok::<bool, E>(true) && *relay_chain
                            == consensus.relay_chain_consensus
                    },
                }
            },
        (forall|at: [u8; 32]|
            at@ == blake_two_256(parent.encoded@) ==> #[trigger] call_requires(
                has_aura_api,
                (at,),
            )) ==> call_requires(
            WaitForAuraConsensus::<Client, AuraId, R, F>::produce_candidate::<E, Q>,
            (&consensus, &parent, has_aura_api),
        ),
{
}

/// The same of a block that is given by its hash: the API is asked for at just that hash.
pub proof fn law_engine_is_asked_for_at_block<
    Client,
    AuraId,
    R,
    F,
    E,
    Q: FnOnce([u8; 32]) -> Result<bool, E>,
>(
    consensus: WaitForAuraConsensus<Client, AuraId, R, F>,
    at: [u8; 32],
    has_aura_api: Q,
    engine: Engine<'_, R, F>,
)
    requires
        call_ensures(
            WaitForAuraConsensus::<Client, AuraId, R, F>::select_at::<E, Q>,
            (&consensus, at, has_aura_api),
            engine,
        ),
    ensures
        exists|reply: Result<bool, E>|
            {
                &&& #[trigger] call_ensures(has_aura_api, (at,), reply)
                &&& match engine {
                    Engine::Aura(aura) => {
                        reply == Ok::<bool, E>(true) && *aura == consensus.aura_consensus
                    },
                    Engine::RelayChain(relay_chain) => {
                        reply != Ok::<bool, E>(true) && *relay_chain
                            == consensus.relay_chain_consensus
                    },
                }
            },
        call_requires(has_aura_api, (at,)) ==> call_requires(
            WaitForAuraConsensus::<Client, AuraId, R, F>::select_at::<E, Q>,
            (&consensus, at, has_aura_api),
        ),
{
}

/// A consensus is put together for one client: that is its own client, the builder of its Aura
/// engine is for it and has not run, and its relay chain engine has been built for it.
pub proof fn law_consensus_is_for_one_client<
    Client,
    AuraId,
    R,
    X,
    D: FnOnce(Arc<Client>) -> Result<u64, X>,
    A: FnOnce(SlotClock, Arc<Client>) -> R,
    B: FnOnce(Arc<Client>) -> R,
>(
    client: Arc<Client>,
    slot_duration: D,
    build_aura: A,
    build_relay_chain: B,
    consensus: WaitForAuraConsensus<Client, AuraId, R, ClockBuilder<Client, D, A>>,
)
    requires
        call_ensures(
            build_consensus::<Client, AuraId, R, X, D, A, B>,
            (client, slot_duration, build_aura, build_relay_chain),
            consensus,
        ),
    ensures
        consensus.client == client,
        call_ensures(
            Mutex::<BuildOnAccess<R, ClockBuilder<Client, D, A>>>::new,
            (
                BuildOnAccess::Uninitialized(
                    Some(ClockBuilder { client, slot_duration, build: build_aura }),
                ),
            ),
            *consensus.aura_consensus,
        ),
        exists|relay_chain: R| #[trigger]
            call_ensures(build_relay_chain, (client,), relay_chain) && call_ensures(
                Mutex::<R>::new,
                (relay_chain,),
                *consensus.relay_chain_consensus,
            ),
        call_requires(build_relay_chain, (client,)) ==> call_requires(
            build_consensus::<Client, AuraId, R, X, D, A, B>,
            (client, slot_duration, build_aura, build_relay_chain),
        ),
{
}

/// A copy of a consensus shares its client and both of its engines.
pub proof fn law_copy_shares_engines<Client, AuraId, R, F>(
    consensus: WaitForAuraConsensus<Client, AuraId, R, F>,
    copy: WaitForAuraConsensus<Client, AuraId, R, F>,
)
    requires
        call_ensures(WaitForAuraConsensus::<Client, AuraId, R, F>::clone, (&consensus,), copy),
    ensures
        copy.client == consensus.client,
        copy.aura_consensus == consensus.aura_consensus,
        copy.relay_chain_consensus == consensus.relay_chain_consensus,
{
}

} // verus!
