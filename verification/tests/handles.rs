//! Generational handle table.
use graftx::handles::{HandleError, HandleTable};
use graftx::protocol::Handle;

const KIND: u8 = 0x42;

#[test]
fn insert_get_roundtrip() {
    let mut table: HandleTable<u32> = HandleTable::new();
    let h = table.insert(KIND, 1234);
    assert_eq!(h.kind(), KIND);
    assert_eq!(h.slot(), 0);
    assert_eq!(h.generation(), 0);
    assert_eq!(table.get(h), Some(&1234));
    assert_eq!(table.get_mut(h), Some(&mut 1234));
}

#[test]
fn get_mut_mutates_in_place() {
    let mut table: HandleTable<u32> = HandleTable::new();
    let h = table.insert(KIND, 1);
    if let Some(v) = table.get_mut(h) {
        *v = 99;
    }
    assert_eq!(table.get(h), Some(&99));
}

#[test]
fn remove_then_get_returns_none() {
    let mut table: HandleTable<&str> = HandleTable::new();
    let h = table.insert(KIND, "value");
    assert_eq!(table.remove(h), Some("value"));
    assert_eq!(table.get(h), None);
    assert_eq!(table.get_mut(h), None);
    // Double remove is a no-op.
    assert_eq!(table.remove(h), None);
}

#[test]
fn stale_handle_after_reuse_returns_none() {
    // Use-after-free defense: an old handle must not resolve once its slot
    // has been freed and reissued under a new generation.
    let mut table: HandleTable<u32> = HandleTable::new();
    let old = table.insert(KIND, 10);
    assert_eq!(table.remove(old), Some(10));

    // The freed slot is reused; the new handle shares the slot index but
    // carries a bumped generation.
    let fresh = table.insert(KIND, 20);
    assert_eq!(fresh.slot(), old.slot());
    assert_ne!(fresh.generation(), old.generation());

    // Stale handle resolves to nothing; fresh handle works.
    assert_eq!(table.get(old), None);
    assert_eq!(table.get_mut(old), None);
    assert_eq!(table.remove(old), None);
    assert_eq!(table.get(fresh), Some(&20));
}

#[test]
fn slot_reuse_increments_generation() {
    let mut table: HandleTable<u32> = HandleTable::new();
    let h0 = table.insert(KIND, 0);
    assert_eq!(h0.generation(), 0);

    let h1 = {
        assert_eq!(table.remove(h0), Some(0));
        table.insert(KIND, 1)
    };
    assert_eq!(h1.slot(), h0.slot());
    assert_eq!(h1.generation(), 1);

    let h2 = {
        assert_eq!(table.remove(h1), Some(1));
        table.insert(KIND, 2)
    };
    assert_eq!(h2.slot(), h0.slot());
    assert_eq!(h2.generation(), 2);
}

#[test]
fn len_tracks_live_count() {
    let mut table: HandleTable<u32> = HandleTable::new();
    assert!(table.is_empty());
    assert_eq!(table.len(), 0);

    let a = table.insert(KIND, 1);
    let b = table.insert(KIND, 2);
    let c = table.insert(KIND, 3);
    assert_eq!(table.len(), 3);
    assert!(!table.is_empty());

    assert_eq!(table.remove(b), Some(2));
    assert_eq!(table.len(), 2);

    // Removing a stale/empty handle does not change the count.
    assert_eq!(table.remove(b), None);
    assert_eq!(table.len(), 2);

    // Reusing the freed slot brings the count back up.
    let d = table.insert(KIND, 4);
    assert_eq!(table.len(), 3);
    assert_eq!(d.slot(), b.slot());

    assert_eq!(table.remove(a), Some(1));
    assert_eq!(table.remove(c), Some(3));
    assert_eq!(table.remove(d), Some(4));
    assert!(table.is_empty());
}

#[test]
fn distinct_slots_for_concurrent_live_entries() {
    let mut table: HandleTable<u32> = HandleTable::new();
    let a = table.insert(KIND, 1);
    let b = table.insert(KIND, 2);
    assert_ne!(a.slot(), b.slot());
    assert_eq!(table.get(a), Some(&1));
    assert_eq!(table.get(b), Some(&2));
}

#[test]
fn exhausted_slot_is_retired_not_reused() {
    // Drive a single slot up to GENERATION_MAX and confirm that the final
    // removal retires it instead of returning it to the free-list.
    let mut table: HandleTable<u32> = HandleTable::new();

    // Insert/remove until the slot's generation reaches GENERATION_MAX.
    let mut last = table.insert(KIND, 0);
    while last.generation() < Handle::GENERATION_MAX {
        assert_eq!(table.remove(last), Some(0));
        last = table.insert(KIND, 0);
        // Same slot keeps being reused as long as it is not retired.
        assert_eq!(last.slot(), 0);
    }
    assert_eq!(last.generation(), Handle::GENERATION_MAX);

    // This removal exhausts the generation and retires slot 0.
    assert_eq!(table.remove(last), Some(0));
    assert!(table.free_len() == 0, "exhausted slot must not be freed");
    assert!(table.is_retired(0), "exhausted slot must be retired");

    // The next insert allocates a brand-new slot rather than slot 0.
    let next = table.insert(KIND, 7);
    assert_eq!(next.slot(), 1);
    assert_eq!(next.generation(), 0);
    assert_eq!(table.get(next), Some(&7));

    // The retired handle never resolves.
    assert_eq!(table.get(last), None);
}

#[test]
fn slots_do_not_disturb_each_other() {
    let mut table: HandleTable<u32> = HandleTable::new();
    assert_eq!(table.get(Handle::new(1, 0, 5)), None);
    let first = table.insert(1, 10);
    let second = table.insert(1, 20);
    assert_eq!(table.remove(first), Some(10));
    assert_eq!(table.get(second), Some(&20));
    // The slot is reused under the next generation.
    let again = table.insert(1, 30);
    assert_eq!(again.slot(), first.slot());
    assert_eq!(again.generation(), first.generation() + 1);
    assert_eq!(table.get(first), None);
    assert_eq!(table.get(again), Some(&30));
    assert_eq!(table.get(second), Some(&20));
    assert_eq!(table.len(), 2);
}

#[test]
fn refusals_have_their_messages() {
    assert_eq!(
        HandleError::SlotOutOfRange(7).message(),
        "handle slot index 7 is out of range"
    );
    assert_eq!(HandleError::EmptySlot(0).message(), "handle slot 0 is empty");
    assert_eq!(
        HandleError::GenerationMismatch { slot: 3, handle: 1, current: 12 }.message(),
        "handle slot 3 generation mismatch: handle=1, slot=12"
    );
}

#[test]
fn removed_handle_never_resolves_again() {
    let mut table: HandleTable<u32> = HandleTable::new();
    let dead = table.insert(4, 0);
    assert_eq!(table.remove(dead), Some(0));
    for value in 1..100u32 {
        let h = table.insert(4, value);
        assert_ne!(h, dead);
        assert_eq!(h.generation(), value);
        assert!(table.get(dead).is_none());
        assert!(table.remove(dead).is_none());
        assert_eq!(table.remove(h), Some(value));
    }
    assert!(table.is_empty());
}

#[test]
fn updates_are_seen_through_the_handle() {
    let mut table = HandleTable::new();
    let h = table.insert(1, 5u8);
    *table.get_mut(h).expect("live handle") = 6;
    assert_eq!(table.get(h), Some(&6));
    assert_eq!(table.len(), 1);
}

#[test]
fn lookups_follow_the_history_of_inserts_and_removals() {
    let mut table: HandleTable<u32> = HandleTable::new();
    let mut issued: Vec<(Handle, Option<u32>)> = Vec::new();
    for step in 0..300u32 {
        match step % 5 {
            0 | 1 | 3 => {
                let h = table.insert(9, step);
                // No slot and generation is issued twice.
                assert!(issued
                    .iter()
                    .all(|(g, _)| g.slot() != h.slot() || g.generation() != h.generation()));
                issued.push((h, Some(step)));
            }
            2 => {
                let k = (step as usize * 7) % issued.len();
                let (h, value) = issued[k];
                assert_eq!(table.remove(h), value);
                issued[k].1 = None;
            }
            _ => {
                let k = (step as usize * 3) % issued.len();
                let (h, value) = issued[k];
                if let Some(slot) = table.get_mut(h) {
                    *slot += 1000;
                }
                issued[k].1 = value.map(|v| v + 1000);
            }
        }
        for (h, value) in &issued {
            assert_eq!(table.get(*h).copied(), *value);
            // The kind plays no part.
            let other = Handle::new(1, h.generation(), h.slot());
            assert_eq!(table.get(other).copied(), *value);
        }
    }
}
