use service_aura::inherents::{relay_chain_inherents, ClockBuilder, InherentError, SlotClock};
use service_aura::lazy::BuildOnAccess;
use std::cell::Cell;
use std::sync::Arc;

fn clock(slot_duration: u64) -> SlotClock {
    SlotClock { slot_duration }
}

#[test]
fn slot_and_time_of_a_verifier() {
    assert_eq!(clock(12_000).verifier_inherents(1_650_000_012_345), (137_500_001, 1_650_000_012_345));
    assert_eq!(clock(6_000).verifier_inherents(0), (0, 0));
    assert_eq!(clock(1).verifier_inherents(u64::MAX), (u64::MAX, u64::MAX));
}

#[test]
fn slots_change_at_their_bounds() {
    assert_eq!(clock(12_000).verifier_inherents(23_999).0, 1);
    assert_eq!(clock(12_000).verifier_inherents(24_000).0, 2);
    assert_eq!(clock(12_000).verifier_inherents(11_999).0, 0);
}

#[test]
fn inherents_of_an_aura_block() {
    assert_eq!(clock(12_000).aura_inherents(Some("proof"), 36_500), Ok((3, 36_500, "proof")));
    assert_eq!(
        clock(12_000).aura_inherents::<&str>(None, 36_500),
        Err(InherentError::ParachainInherent)
    );
}

#[test]
fn inherents_of_a_relay_chain_block() {
    assert_eq!(relay_chain_inherents(Some(8u8)), Ok(8));
    assert_eq!(relay_chain_inherents::<u8>(None), Err(InherentError::ParachainInherent));
}

#[test]
fn error_in_words() {
    assert_eq!(InherentError::ParachainInherent.message(), "Failed to create parachain inherent");
}

#[test]
fn duration_is_read_once() {
    let read = Cell::new(0);
    let builder = ClockBuilder {
        client: Arc::new(6_000u64),
        slot_duration: |client: Arc<u64>| {
            read.set(read.get() + 1);
            Ok::<u64, ()>(*client * 2)
        },
        build: |clock: SlotClock, client: Arc<u64>| (clock, client),
    };
    let (clock, client) = builder.build();
    assert_eq!(clock, SlotClock { slot_duration: 12_000 });
    assert_eq!(*client, 6_000);
    for time in [36_500, 5, 24_000] {
        assert_eq!(clock.verifier_inherents(time), (time / 12_000, time));
        assert_eq!(clock.aura_inherents(Some(1u8), time), Ok((time / 12_000, time, 1)));
    }
    assert_eq!(read.get(), 1);
}

#[test]
fn duration_is_read_at_the_first_access() {
    let read = Cell::new(0);
    let mut cell = BuildOnAccess::Uninitialized(Some(ClockBuilder {
        client: Arc::new(()),
        slot_duration: |_| {
            read.set(read.get() + 1);
            Ok::<u64, ()>(6_000)
        },
        build: |clock: SlotClock, _| clock,
    }));
    assert_eq!(read.get(), 0);
    for time in [0, 5_999, 6_000, 17_999] {
        assert_eq!(cell.get_mut().verifier_inherents(time), (time / 6_000, time));
        assert_eq!(read.get(), 1);
    }
}
