use cata::zipper::Zipper;

#[test]
fn completes_only_when_every_slot_is_filled() {
    let mut z: Zipper<u64> = Zipper::with_size(3);
    assert!(z.try_zip().is_none());
    z.push(1, 0);
    assert!(z.try_zip().is_none());
    z.push(2, 1);
    assert!(z.try_zip().is_none());
    z.push(3, 2);
    let tuple = z.try_zip().expect("all slots filled");
    assert_eq!(tuple, vec![1, 2, 3]);
}

#[test]
fn no_completion_leaves_slots_untouched() {
    let mut z: Zipper<u64> = Zipper::with_size(2);
    z.push(5, 0);
    assert!(z.try_zip().is_none());
    // the pending unit is still there: one more push on the other slot completes
    z.push(6, 1);
    assert_eq!(z.try_zip().expect("complete"), vec![5, 6]);
}

#[test]
fn freshest_unit_wins_and_older_are_discarded() {
    let mut z: Zipper<u64> = Zipper::with_size(2);
    z.push(10, 0); // a
    z.push(11, 0); // b
    z.push(12, 0); // c
    z.push(20, 1);
    let tuple = z.try_zip().expect("complete");
    assert_eq!(tuple, vec![12, 20]);
    // a and b were discarded, not queued: the slot is empty again
    z.push(21, 1);
    assert!(z.try_zip().is_none());
}

#[test]
fn slots_are_empty_after_completion() {
    let mut z: Zipper<u64> = Zipper::with_size(2);
    z.push(1, 0);
    z.push(2, 1);
    assert!(z.try_zip().is_some());
    // a second completion needs a fresh push on every slot
    assert!(z.try_zip().is_none());
    z.push(3, 0);
    assert!(z.try_zip().is_none());
    z.push(4, 1);
    assert_eq!(z.try_zip().expect("complete"), vec![3, 4]);
}

#[test]
fn tuple_length_matches_slot_count() {
    let mut z: Zipper<u64> = Zipper::with_size(4);
    for idx in 0..4 {
        z.push(100 + idx as u64, idx);
    }
    let tuple = z.try_zip().expect("complete");
    assert_eq!(tuple.len(), 4);
}

#[test]
fn zero_width_barrier_always_completes_empty_tuples() {
    let mut z: Zipper<u64> = Zipper::with_size(0);
    assert_eq!(z.try_zip().expect("vacuously complete"), Vec::<u64>::new());
    assert_eq!(z.try_zip().expect("vacuously complete"), Vec::<u64>::new());
}

#[test]
fn reset_discards_pending_units() {
    let mut z: Zipper<u64> = Zipper::with_size(2);
    z.push(1, 0);
    z.push(2, 0);
    z.reset();
    z.push(3, 1);
    assert!(z.try_zip().is_none());
    z.push(4, 0);
    assert_eq!(z.try_zip().expect("complete"), vec![4, 3]);
}

#[test]
fn size_reports_slot_count() {
    let z: Zipper<u64> = Zipper::with_size(7);
    assert_eq!(z.size(), 7);
}
