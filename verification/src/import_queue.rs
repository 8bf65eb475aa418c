//! Importing blocks: the choice between the two verifiers.

use crate::consensus::{offers_aura, WaitForAuraConsensus};
use crate::header::Header;
use crate::inherents::{ClockBuilder, SlotClock};
use crate::lazy::BuildOnAccess;
use crate::partial::Spawner;
use std::marker::PhantomData;
use std::sync::Arc;
use vstd::prelude::*;

verus! {

/// Verifies blocks by the rules of Aura where the runtime offers the Aura API, and by those of
/// the relay chain elsewhere.
pub struct Verifier<Client, AuraId, R, D, A> {
    pub client: Arc<Client>,
    /// Built when it is first needed, by a clock with the duration of a slot that is read then.
    pub aura_verifier: BuildOnAccess<R, ClockBuilder<Client, D, A>>,
    pub relay_chain_verifier: R,
    pub _phantom: PhantomData<AuraId>,
}

impl<Client, AuraId, R, D, A> Verifier<Client, AuraId, R, D, A> {
    /// What becomes of `self` where the one that goes with a reply is picked and the caller
    /// leaves `left` in its place.
    pub open spec fn leaving<E>(self, reply: Result<bool, E>, left: R) -> Self {
        if reply == Ok::<bool, E>(true) {
            Verifier { aura_verifier: BuildOnAccess::Initialized(left), ..self }
        } else {
            Verifier { relay_chain_verifier: left, ..self }
        }
    }

    /// A verifier for the client that nothing has been picked from: with a relay chain verifier
    /// for that client, and with a builder, not run yet, of an Aura verifier for it, by a clock
    /// with the duration of a slot that it is to read.
    pub open spec fn is_new<B>(
        self,
        client: Arc<Client>,
        slot_duration: D,
        build_aura: A,
        new_relay_chain_verifier: B,
    ) -> bool where B: FnOnce(Arc<Client>) -> R {
        &&& self.client == client
        &&& self.aura_verifier == BuildOnAccess::<R, _>::Uninitialized(
            Some(ClockBuilder { client, slot_duration, build: build_aura }),
        )
        &&& call_ensures(new_relay_chain_verifier, (client,), self.relay_chain_verifier)
    }
}

impl<Client, AuraId, R, X, D, A> Verifier<Client, AuraId, R, D, A> where
    X: std::fmt::Debug,
    D: FnOnce(Arc<Client>) -> Result<u64, X>,
    A: FnOnce(SlotClock, Arc<Client>) -> R,
 {
    /// `chosen` is the verifier that goes with a reply to the question for the Aura API, and
    /// `after` is what becomes of `self` where the caller leaves `left` in its place.
    pub open spec fn picks<E>(
        self,
        reply: Result<bool, E>,
        chosen: R,
        left: R,
        after: Self,
    ) -> bool {
        &&& if reply == Ok::<bool, E>(true) {
            self.aura_verifier.yields(chosen)
        } else {
            chosen == self.relay_chain_verifier
        }
        &&& after == self.leaving(reply, left)
    }

    /// Picks the verifier, going by a reply to the question for the Aura API. The Aura verifier
    /// is built only where it is picked.
    pub fn select<E>(&mut self, reply: Result<bool, E>) -> (chosen: &mut R)
        requires
            reply == Ok::<bool, E>(true) ==> old(self).aura_verifier.buildable(),
        ensures
            old(self).picks(reply, *chosen, *final(chosen), *final(self)),
            final(self).client == old(self).client,
            reply == Ok::<bool, E>(true) ==> {
                &&& old(self).aura_verifier.yields(*chosen)
                &&& final(self).aura_verifier == BuildOnAccess::<
                    R,
                    ClockBuilder<Client, D, A>,
                >::Initialized(*final(chosen))
                &&& final(self).relay_chain_verifier == old(self).relay_chain_verifier
            },
            reply != Ok::<bool, E>(true) ==> {
                &&& *chosen == old(self).relay_chain_verifier
                &&& final(self).relay_chain_verifier == *final(chosen)
                &&& final(self).aura_verifier == old(self).aura_verifier
            },
    {
        if offers_aura(reply) {
            self.aura_verifier.get_mut()
        } else {
            &mut self.relay_chain_verifier
        }
    }

    /// Picks the verifier for the block of `header`, going by whether the runtime offers the
    /// Aura API at its parent, which `has_aura_api` is asked.
    pub fn verify<E, Q: FnOnce([u8; 32]) -> Result<bool, E>>(
        &mut self,
        header: &Header,
        has_aura_api: Q,
    ) -> (chosen: &mut R)
        requires
            call_requires(has_aura_api, (header.parent_hash,)),
            call_ensures(has_aura_api, (header.parent_hash,), Ok(true)) ==> old(
                self,
            ).aura_verifier.buildable(),
        ensures
            exists|reply: Result<bool, E>| #[trigger]
                call_ensures(has_aura_api, (header.parent_hash,), reply) && old(self).picks(
                    reply,
                    *chosen,
                    *final(chosen),
                    *final(self),
                ),
    {
        let reply = has_aura_api(header.parent_hash);
        self.select(reply)
    }
}

/// Builds the import queue of a parachain.
///
/// The relay chain verifier is made at once, for the client; the Aura verifier is left unbuilt,
/// with a builder for the same client, which runs when it is first needed: it reads the duration
/// of a slot then, and builds the verifier by a clock that keeps it. `new_queue` makes the queue:
/// from the verifier that picks between the two, from the block import that `new_block_import`
/// makes for the client, without a justification import, and with tasks that are essential.
pub fn parachain_build_import_queue<Client, AuraId, R, X, D, A, B, I, Import, J, N, Queue, E>(
    client: Arc<Client>,
    slot_duration: D,
    build_aura: A,
    new_relay_chain_verifier: B,
    new_block_import: I,
    new_queue: N,
) -> (queue: Result<Queue, E>) where
    D: FnOnce(Arc<Client>) -> Result<u64, X>,
    A: FnOnce(SlotClock, Arc<Client>) -> R,
    B: FnOnce(Arc<Client>) -> R,
    I: FnOnce(Arc<Client>) -> Import,
    N: FnOnce(
        Verifier<Client, AuraId, R, D, A>,
        Import,
        Option<J>,
        Spawner,
    ) -> Queue,

    requires
        call_requires(new_relay_chain_verifier, (client,)),
        call_requires(new_block_import, (client,)),
        forall|verifier: Verifier<Client, AuraId, R, D, A>, import: Import|
            verifier.is_new(client, slot_duration, build_aura, new_relay_chain_verifier)
                && call_ensures(new_block_import, (client,), import) ==> #[trigger] call_requires(
                new_queue,
                (verifier, import, None::<J>, Spawner::Essential),
            ),
    ensures
        exists|
            verifier: Verifier<Client, AuraId, R, D, A>,
            import: Import,
            made: Queue,
        |
            {
                &&& queue == Ok::<Queue, E>(made)
                &&& verifier.is_new(client, slot_duration, build_aura, new_relay_chain_verifier)
                &&& call_ensures(new_block_import, (client,), import)
                &&& #[trigger] call_ensures(
                    new_queue,
                    (verifier, import, None::<J>, Spawner::Essential),
                    made,
                )
            },
{
    let aura_verifier = BuildOnAccess::Uninitialized(
        Some(ClockBuilder { client: client.clone(), slot_duration, build: build_aura }),
    );
    let verifier = Verifier {
        client: client.clone(),
        relay_chain_verifier: new_relay_chain_verifier(client.clone()),
        aura_verifier,
        _phantom: PhantomData,
    };
    let import = new_block_import(client);
    Ok(new_queue(verifier, import, None, Spawner::Essential))
}

/// A verifier that could verify any block by either rules still can after it has been picked
/// from, whatever the caller did to the one that was picked.
pub proof fn law_verifier_stays_usable<
    Client,
    AuraId,
    R,
    X: std::fmt::Debug,
    D: FnOnce(Arc<Client>) -> Result<u64, X>,
    A: FnOnce(SlotClock, Arc<Client>) -> R,
    E,
>(
    before: Verifier<Client, AuraId, R, D, A>,
    reply: Result<bool, E>,
    chosen: R,
    left: R,
    after: Verifier<Client, AuraId, R, D, A>,
)
    requires
        before.aura_verifier.buildable(),
        before.picks(reply, chosen, left, after),
    ensures
        after.aura_verifier.buildable(),
{
}

/// The Aura verifier is there once a runtime has offered the Aura API, and not before; while it
/// is not picked it stays as it is. The relay chain verifier stays as it is while the Aura
/// verifier is picked.
pub proof fn law_aura_built_when_offered<
    Client,
    AuraId,
    R,
    X: std::fmt::Debug,
    D: FnOnce(Arc<Client>) -> Result<u64, X>,
    A: FnOnce(SlotClock, Arc<Client>) -> R,
    E,
>(
    before: Verifier<Client, AuraId, R, D, A>,
    reply: Result<bool, E>,
    chosen: R,
    left: R,
    after: Verifier<Client, AuraId, R, D, A>,
)
    requires
        before.picks(reply, chosen, left, after),
    ensures
        after.aura_verifier is Initialized <==> before.aura_verifier is Initialized || reply == Ok::<
            bool,
            E,
        >(true),
        reply != Ok::<bool, E>(true) ==> after.aura_verifier == before.aura_verifier,
        reply == Ok::<bool, E>(true) ==> after.relay_chain_verifier == before.relay_chain_verifier,
{
}

/// Who writes a block on top of a parent and who verifies such a block ask about the same block,
/// and draw the same conclusion from one reply: both turn to Aura, or both to the relay chain.
pub proof fn law_writers_and_verifiers_agree<
    Client,
    AuraId,
    R,
    X: std::fmt::Debug,
    D: FnOnce(Arc<Client>) -> Result<u64, X>,
    A: FnOnce(SlotClock, Arc<Client>) -> R,
    E,
    W,
    F,
>(
    parent: Header,
    child: Header,
    asked_by_writer: [u8; 32],
    reply: Result<bool, E>,
    consensus: WaitForAuraConsensus<Client, AuraId, W, F>,
    verifier: Verifier<Client, AuraId, R, D, A>,
    chosen: R,
    left: R,
    after: Verifier<Client, AuraId, R, D, A>,
)
    requires
        child.parent_hash@ == parent.block_hash(),
        asked_by_writer@ == parent.block_hash(),
        verifier.picks(reply, chosen, left, after),
    ensures
        asked_by_writer == child.parent_hash,
        consensus.engine(reply) is Aura ==> verifier.aura_verifier.yields(chosen),
        consensus.engine(reply) is RelayChain ==> chosen == verifier.relay_chain_verifier,
{
    assert(asked_by_writer =~= child.parent_hash);
}

/// The same of headers as they are encoded: where the encoding of `child` says that its block is
/// on top of that of `parent`, its verifier asks where a writer on top of `parent` asks, and both
/// draw the same conclusion from one reply.
pub proof fn law_encoded_child_is_verified_as_written<
    Client,
    AuraId,
    R,
    X: std::fmt::Debug,
    D: FnOnce(Arc<Client>) -> Result<u64, X>,
    A: FnOnce(SlotClock, Arc<Client>) -> R,
    E,
    W,
    F,
>(
    parent: Header,
    child: Header,
    asked_by_writer: [u8; 32],
    reply: Result<bool, E>,
    consensus: WaitForAuraConsensus<Client, AuraId, W, F>,
    verifier: Verifier<Client, AuraId, R, D, A>,
    chosen: R,
    left: R,
    after: Verifier<Client, AuraId, R, D, A>,
)
    requires
        child.wf(),
        child.is_on_top_of(parent),
        asked_by_writer@ == parent.block_hash(),
        verifier.picks(reply, chosen, left, after),
    ensures
        asked_by_writer == child.parent_hash,
        consensus.engine(reply) is Aura ==> verifier.aura_verifier.yields(chosen),
        consensus.engine(reply) is RelayChain ==> chosen == verifier.relay_chain_verifier,
{
    law_writers_and_verifiers_agree(
        parent,
        child,
        asked_by_writer,
        reply,
        consensus,
        verifier,
        chosen,
        left,
        after,
    );
}

/// One block that was verified: its header, whoever was asked for the Aura API and the reply, the
/// verifier that was picked, and what the caller left in its place.
pub struct Verified<Q, E, R> {
    pub header: Header,
    pub has_aura_api: Q,
    pub reply: Result<bool, E>,
    pub chosen: R,
    pub left: R,
}

impl<Q, E, R> Verified<Q, E, R> {
    /// Whether the runtime offered the Aura API at the parent of the block.
    pub open spec fn by_aura(self) -> bool {
        self.reply == Ok::<bool, E>(true)
    }
}

/// What becomes of a verifier when blocks are verified one after the other.
pub open spec fn after_blocks<Client, AuraId, R, D, A, Q, E>(
    verifier: Verifier<Client, AuraId, R, D, A>,
    blocks: Seq<Verified<Q, E, R>>,
) -> Verifier<Client, AuraId, R, D, A>
    decreases blocks.len(),
{
    if blocks.len() == 0 {
        verifier
    } else {
        after_blocks(verifier, blocks.drop_last()).leaving(
            blocks.last().reply,
            blocks.last().left,
        )
    }
}

/// Whether blocks may have been verified like this, one after the other, each by a call of
/// `verify`.
pub open spec fn verified_in_turn<
    Client,
    AuraId,
    R,
    X: std::fmt::Debug,
    D: FnOnce(Arc<Client>) -> Result<u64, X>,
    A: FnOnce(SlotClock, Arc<Client>) -> R,
    E,
    Q: FnOnce([u8; 32]) -> Result<bool, E>,
>(verifier: Verifier<Client, AuraId, R, D, A>, blocks: Seq<Verified<Q, E, R>>) -> bool
    decreases blocks.len(),
{
    blocks.len() > 0 ==> {
        let last = blocks.last();
        &&& verified_in_turn(verifier, blocks.drop_last())
        &&& call_ensures(last.has_aura_api, (last.header.parent_hash,), last.reply)
        &&& after_blocks(verifier, blocks.drop_last()).picks(
            last.reply,
            last.chosen,
            last.left,
            after_blocks(verifier, blocks),
        )
    }
}

/// What was last left in the place of the Aura verifier, or in that of the relay chain verifier,
/// if it was ever picked.
pub open spec fn last_left<Q, E, R>(blocks: Seq<Verified<Q, E, R>>, by_aura: bool) -> Option<R>
    decreases blocks.len(),
{
    if blocks.len() == 0 {
        None
    } else if blocks.last().by_aura() == by_aura {
        Some(blocks.last().left)
    } else {
        last_left(blocks.drop_last(), by_aura)
    }
}

/// Where the two verifiers stand after some blocks.
proof fn lemma_after_blocks<Client, AuraId, R, D, A, Q, E>(
    verifier: Verifier<Client, AuraId, R, D, A>,
    blocks: Seq<Verified<Q, E, R>>,
)
    ensures
        ({
            let after = after_blocks(verifier, blocks);
            &&& after.client == verifier.client
            &&& after.aura_verifier == (match last_left(blocks, true) {
                Some(left) => BuildOnAccess::Initialized(left),
                None => verifier.aura_verifier,
            })
            &&& after.relay_chain_verifier == (match last_left(blocks, false) {
                Some(left) => left,
                None => verifier.relay_chain_verifier,
            })
        }),
    decreases blocks.len(),
{
    if blocks.len() > 0 {
        lemma_after_blocks(verifier, blocks.drop_last());
    }
}

/// However many blocks the verifier of an import queue has verified, the next one is verified like
/// this. Where the runtime offers the Aura API at its parent, it is by the Aura verifier. If this
/// is the first such block, that is one built for the client, by a clock with the duration of a
/// slot as it was read then; else it is the very one that the last such block left, so that the
/// duration is never read again. In any other case the block is verified by the relay chain
/// verifier for the client, as the last block that it verified left it. Until the first block of
/// the former kind nothing is read and nothing is built. The client stays.
pub proof fn law_import_queue_verifies<
    Client,
    AuraId,
    R,
    X: std::fmt::Debug,
    D: FnOnce(Arc<Client>) -> Result<u64, X>,
    A: FnOnce(SlotClock, Arc<Client>) -> R,
    B: FnOnce(Arc<Client>) -> R,
    E,
    Q: FnOnce([u8; 32]) -> Result<bool, E>,
>(
    client: Arc<Client>,
    slot_duration: D,
    build_aura: A,
    new_relay_chain_verifier: B,
    verifier: Verifier<Client, AuraId, R, D, A>,
    blocks: Seq<Verified<Q, E, R>>,
)
    requires
        verifier.is_new(client, slot_duration, build_aura, new_relay_chain_verifier),
        verified_in_turn(verifier, blocks),
        blocks.len() > 0,
    ensures
        ({
            let last = blocks.last();
            let before = blocks.drop_last();
            let after = after_blocks(verifier, blocks);
            let builder = ClockBuilder { client, slot_duration, build: build_aura };
            &&& call_ensures(last.has_aura_api, (last.header.parent_hash,), last.reply)
            &&& last.reply == Ok::<bool, E>(true) ==> match last_left(before, true) {
                Some(left) => last.chosen == left,
                None => builder.builds(last.chosen),
            }
            &&& last.reply != Ok::<bool, E>(true) ==> match last_left(before, false) {
                Some(left) => last.chosen == left,
                None => call_ensures(new_relay_chain_verifier, (client,), last.chosen),
            }
            &&& last_left(blocks, true) is None ==> after.aura_verifier == BuildOnAccess::<
                R,
                _,
            >::Uninitialized(Some(builder))
            &&& after.client == client
        }),
{
    lemma_after_blocks(verifier, blocks);
    lemma_after_blocks(verifier, blocks.drop_last());
}

/// An import queue goes by one duration of a slot all along. The duration is read for the first
/// block at whose parent the runtime offers the Aura API, and could be read there; the verifier of
/// that block is built by a clock that keeps it, and every later such block is verified by what
/// the one before it left of this verifier. Whatever time that clock is asked at, a block is
/// checked against the time divided by that one duration, rounded down, and against that time.
pub proof fn law_import_queue_reads_duration_once<
    Client,
    AuraId,
    R,
    X: std::fmt::Debug,
    D: FnOnce(Arc<Client>) -> Result<u64, X>,
    A: FnOnce(SlotClock, Arc<Client>) -> R,
    B: FnOnce(Arc<Client>) -> R,
    E,
    Q: FnOnce([u8; 32]) -> Result<bool, E>,
>(
    client: Arc<Client>,
    slot_duration: D,
    build_aura: A,
    new_relay_chain_verifier: B,
    verifier: Verifier<Client, AuraId, R, D, A>,
    blocks: Seq<Verified<Q, E, R>>,
    first: int,
)
    requires
        verifier.is_new(client, slot_duration, build_aura, new_relay_chain_verifier),
        verified_in_turn(verifier, blocks),
        0 <= first < blocks.len(),
        blocks[first].by_aura(),
        forall|i: int| 0 <= i < first ==> !(#[trigger] blocks[i]).by_aura(),
    ensures
        exists|duration: u64|
            {
                let clock = SlotClock { slot_duration: duration };
                &&& #[trigger] call_ensures(slot_duration, (client,), Ok(duration))
                &&& call_ensures(build_aura, (clock, client), blocks[first].chosen)
                &&& forall|time: u64, inherents: (u64, u64)|
                    clock.checks_against(time, inherents) ==> inherents.0 as int == time as int
                        / duration as int && inherents.1 == time
            },
        forall|i: int|
            first < i < blocks.len() && (#[trigger] blocks[i]).by_aura() ==> Some(blocks[i].chosen)
                == last_left(blocks.take(i), true),
{
    lemma_verified_prefix(verifier, blocks, first + 1);
    let until_first = blocks.take(first + 1);
    assert(until_first.drop_last() =~= blocks.take(first));
    lemma_none_by_aura(blocks.take(first));
    law_import_queue_verifies(
        client,
        slot_duration,
        build_aura,
        new_relay_chain_verifier,
        verifier,
        until_first,
    );
    assert forall|i: int| first < i < blocks.len() && (#[trigger] blocks[i]).by_aura() implies Some(
        blocks[i].chosen,
    ) == last_left(blocks.take(i), true) by {
        lemma_verified_prefix(verifier, blocks, i + 1);
        assert(blocks.take(i + 1).drop_last() =~= blocks.take(i));
        lemma_some_by_aura(blocks.take(i), first);
        law_import_queue_verifies(
            client,
            slot_duration,
            build_aura,
            new_relay_chain_verifier,
            verifier,
            blocks.take(i + 1),
        );
    }
}

/// What holds of blocks that were verified in turn holds of the first of them.
proof fn lemma_verified_prefix<
    Client,
    AuraId,
    R,
    X: std::fmt::Debug,
    D: FnOnce(Arc<Client>) -> Result<u64, X>,
    A: FnOnce(SlotClock, Arc<Client>) -> R,
    E,
    Q: FnOnce([u8; 32]) -> Result<bool, E>,
>(verifier: Verifier<Client, AuraId, R, D, A>, blocks: Seq<Verified<Q, E, R>>, count: int)
    requires
        verified_in_turn(verifier, blocks),
        0 <= count <= blocks.len(),
    ensures
        verified_in_turn(verifier, blocks.take(count)),
    decreases blocks.len(),
{
    if count < blocks.len() {
        lemma_verified_prefix(verifier, blocks.drop_last(), count);
        assert(blocks.drop_last().take(count) =~= blocks.take(count));
    } else {
        assert(blocks.take(count) =~= blocks);
    }
}

/// Nothing is left in the place of the Aura verifier where it was never picked.
proof fn lemma_none_by_aura<Q, E, R>(blocks: Seq<Verified<Q, E, R>>)
    requires
        forall|i: int| 0 <= i < blocks.len() ==> !(#[trigger] blocks[i]).by_aura(),
    ensures
        last_left(blocks, true) is None,
    decreases blocks.len(),
{
    if blocks.len() > 0 {
        assert(!blocks[blocks.len() - 1].by_aura());
        assert forall|i: int| 0 <= i < blocks.len() - 1 implies !(
        #[trigger] blocks.drop_last()[i]).by_aura() by {
            assert(!blocks[i].by_aura());
        }
        lemma_none_by_aura(blocks.drop_last());
    }
}

/// Something is left in the place of the Aura verifier where it was picked.
proof fn lemma_some_by_aura<Q, E, R>(blocks: Seq<Verified<Q, E, R>>, first: int)
    requires
        0 <= first < blocks.len(),
        blocks[first].by_aura(),
    ensures
        last_left(blocks, true) is Some,
    decreases blocks.len(),
{
    if !blocks.last().by_aura() {
        lemma_some_by_aura(blocks.drop_last(), first);
    }
}

/// Which verifier is picked, and what picking it changes. Where the API is offered it is the Aura
/// verifier: the one that is there, or else one that the builder builds for its client by a clock
/// with just the duration that is read; and what the caller leaves is the Aura verifier from then
/// on. In every other case it is the relay chain verifier, and what the caller leaves is that from
/// then on. The other verifier and the client stay as they are.
pub proof fn law_verifier_goes_with_reply<
    Client,
    AuraId,
    R,
    X: std::fmt::Debug,
    D: FnOnce(Arc<Client>) -> Result<u64, X>,
    A: FnOnce(SlotClock, Arc<Client>) -> R,
    E,
>(
    before: Verifier<Client, AuraId, R, D, A>,
    reply: Result<bool, E>,
    chosen: R,
    left: R,
    after: Verifier<Client, AuraId, R, D, A>,
)
    requires
        before.picks(reply, chosen, left, after),
    ensures
        after.client == before.client,
        reply matches Ok(offered) && offered ==> {
            &&& match before.aura_verifier {
                BuildOnAccess::Initialized(present) => chosen == present,
                BuildOnAccess::Uninitialized(Some(builder)) => exists|duration: u64| #[trigger]
                    call_ensures(builder.slot_duration, (builder.client,), Ok(duration))
                        && call_ensures(
                        builder.build,
                        (SlotClock { slot_duration: duration }, builder.client),
                        chosen,
                    ),
                BuildOnAccess::Uninitialized(None) => false,
            }
            &&& after.aura_verifier is Initialized && after.aura_verifier->Initialized_0 == left
            &&& after.relay_chain_verifier == before.relay_chain_verifier
        },
        !(reply matches Ok(offered) && offered) ==> {
            &&& chosen == before.relay_chain_verifier
            &&& after.relay_chain_verifier == left
            &&& after.aura_verifier == before.aura_verifier
        },
{
}

/// The verifier of an import queue is for one client: that is its own client, its relay chain
/// verifier has been made for it, and the builder of its Aura verifier is for it, reads the
/// duration by what was given to read it and builds by what was given to build, and has not run.
/// The queue is made of that verifier and of the block import that was made for the client,
/// without a justification import and with essential tasks; and it is always made.
pub proof fn law_import_queue_is_for_one_client<
    Client,
    AuraId,
    R,
    X,
    D: FnOnce(Arc<Client>) -> Result<u64, X>,
    A: FnOnce(SlotClock, Arc<Client>) -> R,
    B: FnOnce(Arc<Client>) -> R,
    I: FnOnce(Arc<Client>) -> Import,
    Import,
    J,
    N: FnOnce(Verifier<Client, AuraId, R, D, A>, Import, Option<J>, Spawner) -> Queue,
    Queue,
    E,
>(
    client: Arc<Client>,
    slot_duration: D,
    build_aura: A,
    new_relay_chain_verifier: B,
    new_block_import: I,
    new_queue: N,
    queue: Result<Queue, E>,
)
    requires
        call_ensures(
            parachain_build_import_queue::<
                Client,
                AuraId,
                R,
                X,
                D,
                A,
                B,
                I,
                Import,
                J,
                N,
                Queue,
                E,
            >,
            (
                client,
                slot_duration,
                build_aura,
                new_relay_chain_verifier,
                new_block_import,
                new_queue,
            ),
            queue,
        ),
    ensures
        queue is Ok,
        exists|verifier: Verifier<Client, AuraId, R, D, A>, import: Import, made: Queue|
            {
                &&& queue == Ok::<Queue, E>(made)
                &&& verifier.client == client
                &&& verifier.aura_verifier is Uninitialized
                &&& verifier.aura_verifier->Uninitialized_0 == Some(
                    ClockBuilder { client, slot_duration, build: build_aura },
                )
                &&& call_ensures(
                    new_relay_chain_verifier,
                    (client,),
                    verifier.relay_chain_verifier,
                )
                &&& call_ensures(new_block_import, (client,), import)
                &&& #[trigger] call_ensures(
                    new_queue,
                    (verifier, import, None::<J>, Spawner::Essential),
                    made,
                )
            },
        call_requires(new_relay_chain_verifier, (client,)) && call_requires(
            new_block_import,
            (client,),
        ) && (forall|verifier: Verifier<Client, AuraId, R, D, A>, import: Import| #[trigger]
            call_requires(new_queue, (verifier, import, None::<J>, Spawner::Essential)))
            ==> call_requires(
            parachain_build_import_queue::<
                Client,
                AuraId,
                R,
                X,
                D,
                A,
                B,
                I,
                Import,
                J,
                N,
                Queue,
                E,
            >,
            (
                client,
                slot_duration,
                build_aura,
                new_relay_chain_verifier,
                new_block_import,
                new_queue,
            ),
        ),
{
}

/// What is new about a verifier: it is for the client, its relay chain verifier was made for the
/// client, and its Aura verifier is yet to be built for the client as given.
pub proof fn law_new_verifier<
    Client,
    AuraId,
    R,
    D,
    A,
    B: FnOnce(Arc<Client>) -> R,
>(
    client: Arc<Client>,
    slot_duration: D,
    build_aura: A,
    new_relay_chain_verifier: B,
    verifier: Verifier<Client, AuraId, R, D, A>,
)
    ensures
        verifier.is_new(client, slot_duration, build_aura, new_relay_chain_verifier) <==> {
            &&& verifier.client == client
            &&& call_ensures(new_relay_chain_verifier, (client,), verifier.relay_chain_verifier)
            &&& verifier.aura_verifier is Uninitialized
            &&& verifier.aura_verifier->Uninitialized_0 is Some
            &&& verifier.aura_verifier->Uninitialized_0->0.client == client
            &&& verifier.aura_verifier->Uninitialized_0->0.slot_duration == slot_duration
            &&& verifier.aura_verifier->Uninitialized_0->0.build == build_aura
        },
{
}

} // verus!
