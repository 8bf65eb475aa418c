use futures::executor::block_on;
use parity_scale_codec::Encode;
use service_aura::consensus::{
    aura_consensus_params, build_consensus, offers_aura, Engine, SlotPortion, WaitForAuraConsensus,
};
use service_aura::header::Header;
use service_aura::import_queue::{parachain_build_import_queue, Verifier};
use service_aura::inherents::{ClockBuilder, SlotClock};
use service_aura::lazy::BuildOnAccess;
use service_aura::partial::Spawner;
use sp_runtime::generic;
use sp_runtime::traits::BlakeTwo256;
use std::cell::Cell;
use std::marker::PhantomData;
use std::sync::atomic::AtomicUsize;
use std::sync::atomic::Ordering::SeqCst;
use std::sync::Arc;

struct AuraId;

type ReadDuration = Box<dyn FnOnce(Arc<u32>) -> Result<u64, ()>>;
type Build = Box<dyn FnOnce(SlotClock, Arc<u32>) -> String>;
type Builder = ClockBuilder<u32, ReadDuration, Build>;
type Consensus = WaitForAuraConsensus<u32, AuraId, String, Builder>;

/// The 256 bit Blake2 hash of no bytes.
const HASH_OF_NOTHING: [u8; 32] = [
    0x0e, 0x57, 0x51, 0xc0, 0x26, 0xe5, 0x43, 0xb2, 0xe8, 0xab, 0x2e, 0xb0, 0x60, 0x99, 0xda, 0xa1,
    0xd1, 0xe5, 0xdf, 0x47, 0x77, 0x8f, 0x77, 0x87, 0xfa, 0xab, 0x45, 0xcd, 0xf1, 0x2f, 0xe3, 0xa8,
];

fn empty_header(parent_hash: [u8; 32]) -> Header {
    Header { parent_hash, encoded: Vec::new() }
}

fn consensus() -> Consensus {
    let read_duration: ReadDuration = Box::new(|_| Ok(12_000));
    let build: Build = Box::new(|_, client| format!("aura for {}", client));
    build_consensus(Arc::new(5), read_duration, build, |client: Arc<u32>| {
        format!("relay chain for {}", client)
    })
}

fn read(engine: Engine<'_, String, Builder>) -> String {
    match engine {
        Engine::Aura(aura) => block_on(aura.lock()).get_mut().clone(),
        Engine::RelayChain(relay_chain) => block_on(relay_chain.lock()).clone(),
    }
}

#[test]
fn hash_of_a_header() {
    assert_eq!(empty_header([1; 32]).hash(), HASH_OF_NOTHING);
    let header = generic::Header::<u32, BlakeTwo256> {
        parent_hash: [7; 32].into(),
        number: 300,
        state_root: [8; 32].into(),
        extrinsics_root: [9; 32].into(),
        digest: generic::Digest { logs: vec![generic::DigestItem::Other(vec![1, 2, 3])] },
    };
    let plain = Header { parent_hash: header.parent_hash.to_fixed_bytes(), encoded: header.encode() };
    assert_eq!(plain.hash(), header.hash().to_fixed_bytes());
    assert_eq!(plain.encoded[..32], plain.parent_hash);
}

#[test]
fn replies() {
    assert!(offers_aura(Ok::<bool, ()>(true)));
    assert!(!offers_aura(Ok::<bool, ()>(false)));
    assert!(!offers_aura(Err::<bool, ()>(())));
}

#[test]
fn candidate_is_asked_for_at_the_parent() {
    let consensus = consensus();
    let asked = Cell::new([0; 32]);
    let engine = consensus.produce_candidate(&empty_header([1; 32]), |at| {
        asked.set(at);
        Ok::<bool, ()>(true)
    });
    assert_eq!(read(engine), "aura for 5");
    assert_eq!(asked.get(), HASH_OF_NOTHING);
}

#[test]
fn candidate_falls_back_to_the_relay_chain() {
    let consensus = consensus();
    for reply in [Ok(false), Err(())] {
        let engine = consensus.produce_candidate(&empty_header([1; 32]), |_| reply);
        assert_eq!(read(engine), "relay chain for 5");
    }
    assert!(matches!(
        *block_on(consensus.aura_consensus.lock()),
        BuildOnAccess::Uninitialized(Some(_))
    ));
}

#[test]
fn engine_at_a_block() {
    let consensus = consensus();
    let offered_at = [3; 32];
    let engine = consensus.select_at([3; 32], |at| Ok::<bool, ()>(at == offered_at));
    assert!(matches!(engine, Engine::Aura(_)));
    let engine = consensus.select_at([4; 32], |at| Ok::<bool, ()>(at == offered_at));
    assert!(matches!(engine, Engine::RelayChain(_)));
    assert!(matches!(consensus.select(Ok::<bool, ()>(true)), Engine::Aura(_)));
}

#[test]
fn copies_share_the_engines() {
    let consensus = consensus();
    let copy = consensus.clone();
    assert!(Arc::ptr_eq(&consensus.client, &copy.client));
    assert!(Arc::ptr_eq(&consensus.aura_consensus, &copy.aura_consensus));
    assert!(Arc::ptr_eq(&consensus.relay_chain_consensus, &copy.relay_chain_consensus));
    block_on(copy.aura_consensus.lock()).get_mut().push_str(", used");
    assert_eq!(read(consensus.select(Ok::<bool, ()>(true))), "aura for 5, used");
}

#[test]
fn verifier_is_picked_at_the_parent() {
    let built = Cell::new(0);
    let client = Arc::new(5);
    let mut verifier: Verifier<u32, AuraId, String, _, _> = Verifier {
        client: client.clone(),
        aura_verifier: BuildOnAccess::Uninitialized(Some(ClockBuilder {
            client,
            slot_duration: |_| Ok::<u64, ()>(6_000),
            build: |_, _| {
                built.set(built.get() + 1);
                String::from("aura")
            },
        })),
        relay_chain_verifier: String::from("relay chain"),
        _phantom: PhantomData,
    };
    let upgraded = [6; 32];
    let has_aura_api = |at: [u8; 32]| if at == [0; 32] { Err(()) } else { Ok(at == upgraded) };

    assert_eq!(verifier.verify(&empty_header([5; 32]), has_aura_api), "relay chain");
    assert_eq!(verifier.verify(&empty_header([0; 32]), has_aura_api), "relay chain");
    assert_eq!(built.get(), 0);

    verifier.verify(&empty_header([6; 32]), has_aura_api).push('!');
    assert_eq!(verifier.verify(&empty_header([6; 32]), has_aura_api), "aura!");
    assert_eq!(built.get(), 1);

    verifier.select(Ok::<bool, ()>(false)).push('?');
    assert_eq!(verifier.relay_chain_verifier, "relay chain?");
    assert_eq!(verifier.select(Ok::<bool, ()>(true)), "aura!");
    assert_eq!(built.get(), 1);
}

#[test]
fn writers_and_verifiers_agree() {
    let parent = empty_header([1; 32]);
    let child = Header { parent_hash: parent.hash(), encoded: vec![1] };
    let asked_by_writer = Cell::new([0; 32]);
    let consensus = consensus();
    let engine = consensus.produce_candidate(&parent, |at| {
        asked_by_writer.set(at);
        Ok::<bool, ()>(false)
    });
    assert!(matches!(engine, Engine::RelayChain(_)));
    let asked_by_verifier = Cell::new([0; 32]);
    let mut verifier: Verifier<
        u32,
        AuraId,
        u8,
        fn(Arc<u32>) -> Result<u64, ()>,
        fn(SlotClock, Arc<u32>) -> u8,
    > = Verifier {
        client: Arc::new(5),
        aura_verifier: BuildOnAccess::Initialized(1),
        relay_chain_verifier: 2,
        _phantom: PhantomData,
    };
    let chosen = *verifier.verify(&child, |at| {
        asked_by_verifier.set(at);
        Ok::<bool, ()>(false)
    });
    assert_eq!(chosen, 2);
    assert_eq!(asked_by_writer.get(), asked_by_verifier.get());
}

type QueueParts = (
    Verifier<u32, AuraId, String, ReadDuration, Build>,
    String,
    Option<()>,
    Spawner,
);

fn queue(built: &Arc<AtomicUsize>) -> Result<QueueParts, ()> {
    let built = built.clone();
    let read_duration: ReadDuration = Box::new(move |_| {
        built.fetch_add(1, SeqCst);
        Ok(6_000)
    });
    let build: Build = Box::new(|clock, client| {
        assert_eq!(clock, SlotClock { slot_duration: 6_000 });
        format!("aura for {}", client)
    });
    parachain_build_import_queue(
        Arc::new(11),
        read_duration,
        build,
        |client: Arc<u32>| format!("relay chain for {}", client),
        |client: Arc<u32>| format!("import for {}", client),
        |verifier, import, justification_import, spawner| {
            (verifier, import, justification_import, spawner)
        },
    )
}

#[test]
fn import_queue() {
    let (verifier, import, justification_import, spawner) =
        queue(&Arc::new(AtomicUsize::new(0))).unwrap();
    assert_eq!(*verifier.client, 11);
    assert!(matches!(verifier.aura_verifier, BuildOnAccess::Uninitialized(Some(_))));
    assert_eq!(verifier.relay_chain_verifier, "relay chain for 11");
    assert_eq!(import, "import for 11");
    assert_eq!(justification_import, None);
    assert_eq!(spawner, Spawner::Essential);
}

#[test]
fn import_queue_verifies_block_by_block() {
    let built = Arc::new(AtomicUsize::new(0));
    let (mut verifier, _, _, _) = queue(&built).unwrap();
    let has_aura_api = |at: [u8; 32]| if at[0] == 0 { Err(()) } else { Ok(at[0] >= 8) };
    let parents = [3, 0, 8, 5, 9, 12];
    let mut seen = Vec::new();
    for parent in parents {
        let chosen = verifier.verify(&empty_header([parent; 32]), has_aura_api);
        seen.push((chosen.clone(), built.load(SeqCst)));
        chosen.push('.');
    }
    assert_eq!(
        seen,
        vec![
            (String::from("relay chain for 11"), 0),
            (String::from("relay chain for 11."), 0),
            (String::from("aura for 11"), 1),
            (String::from("relay chain for 11.."), 1),
            (String::from("aura for 11."), 1),
            (String::from("aura for 11.."), 1),
        ]
    );
}

#[test]
fn aura_set_up() {
    let params = aura_consensus_params(12_000, true);
    assert_eq!(params.slot_duration, 12_000);
    assert!(params.force_authoring);
    assert_eq!(params.backoff_authoring_blocks, None);
    assert_eq!(params.block_proposal_slot_portion, SlotPortion { numerator: 1, denominator: 24 });
    assert_eq!(
        params.max_block_proposal_slot_portion,
        Some(SlotPortion { numerator: 1, denominator: 16 })
    );
    assert!(!aura_consensus_params(6_000, false).force_authoring);
}

#[test]
fn time_for_a_proposal() {
    let params = aura_consensus_params(12_000, false);
    let of = |portion: SlotPortion| {
        params.slot_duration * portion.numerator as u64 / portion.denominator as u64
    };
    assert_eq!(of(params.block_proposal_slot_portion), 500);
    assert_eq!(of(params.max_block_proposal_slot_portion.unwrap()), 750);
}

#[test]
fn header_from_its_encoding() {
    assert!(Header::from_encoded(vec![5; 31]).is_none());
    assert!(Header::from_encoded(Vec::new()).is_none());
    let shortest = Header::from_encoded(vec![5; 32]).unwrap();
    assert_eq!(shortest.parent_hash, [5; 32]);
    assert_eq!(shortest.encoded, vec![5; 32]);
    let longer: Vec<u8> = (0..100).collect();
    let header = Header::from_encoded(longer.clone()).unwrap();
    assert_eq!(header.parent_hash[..], longer[..32]);
    assert_eq!(header.encoded, longer);
}

#[test]
fn encoded_child_is_verified_as_written() {
    let genesis = generic::Header::<u32, BlakeTwo256> {
        parent_hash: [0; 32].into(),
        number: 0,
        state_root: [8; 32].into(),
        extrinsics_root: [9; 32].into(),
        digest: Default::default(),
    };
    let next = generic::Header::<u32, BlakeTwo256> {
        parent_hash: genesis.hash(),
        number: 1,
        ..genesis.clone()
    };
    let parent = Header::from_encoded(genesis.encode()).unwrap();
    let child = Header::from_encoded(next.encode()).unwrap();
    let asked_by_writer = Cell::new([0; 32]);
    let consensus = consensus();
    consensus.produce_candidate(&parent, |at| {
        asked_by_writer.set(at);
        Ok::<bool, ()>(true)
    });
    let (mut verifier, _, _, _) = queue(&Arc::new(AtomicUsize::new(0))).unwrap();
    let asked_by_verifier = Cell::new([0; 32]);
    let chosen = verifier.verify(&child, |at| {
        asked_by_verifier.set(at);
        Ok::<bool, ()>(true)
    });
    assert_eq!(chosen, "aura for 11");
    assert_eq!(asked_by_writer.get(), genesis.hash().to_fixed_bytes());
    assert_eq!(asked_by_verifier.get(), asked_by_writer.get());
}

#[test]
fn candidates_share_engines() {
    let consensus = consensus();
    let copy = consensus.clone();
    let mut found = Vec::new();
    for (through, reply) in [
        (&copy, Ok(false)),
        (&consensus, Ok(true)),
        (&copy, Err(())),
        (&copy, Ok(true)),
        (&consensus, Ok(false)),
        (&consensus, Ok(true)),
    ] {
        match through.produce_candidate(&empty_header([1; 32]), |_| reply) {
            Engine::Aura(aura) => {
                let mut cell = block_on(aura.lock());
                found.push(cell.get_mut().clone());
                cell.get_mut().push('.');
            }
            Engine::RelayChain(relay_chain) => {
                found.push(block_on(relay_chain.lock()).clone());
                block_on(relay_chain.lock()).push('.');
            }
        }
    }
    assert_eq!(
        found,
        vec![
            "relay chain for 5",
            "aura for 5",
            "relay chain for 5.",
            "aura for 5.",
            "relay chain for 5..",
            "aura for 5..",
        ]
    );
}
