use raft_io_state::{IOState, IOStateError, LogId, Vote, Watermark};

fn lid(term: u64, index: u64) -> Option<LogId> {
    Some(LogId::new(term, index))
}

#[test]
fn new_starts_unflushed_and_idle() {
    let s = IOState::new(Vote::new(1, 0), lid(1, 7), lid(1, 4), lid(1, 2));
    assert_eq!(s.vote(), &Vote::new(1, 0));
    assert_eq!(s.applied(), Some(&LogId::new(1, 7)));
    assert_eq!(s.snapshot(), Some(&LogId::new(1, 4)));
    assert_eq!(s.purged(), Some(&LogId::new(1, 2)));
    assert_eq!(s.flushed(), None);
    assert!(!s.building_snapshot());
}

#[test]
fn initial_state_applied_scenario() {
    let mut s = IOState::new(Vote::new(1, 0), None, None, None);
    assert_eq!(s.update_applied(lid(1, 5)), Ok(()));
    assert_eq!(s.applied(), Some(&LogId::new(1, 5)));
    assert_eq!(
        s.update_applied(lid(1, 3)),
        Err(IOStateError::NotMonotonic {
            watermark: Watermark::Applied,
            current: lid(1, 5),
            update: lid(1, 3),
        })
    );
    assert_eq!(s.applied(), Some(&LogId::new(1, 5)));
}

#[test]
fn applied_duplicate_and_absent_are_refused() {
    let mut s = IOState::new(Vote::new(1, 0), lid(1, 5), None, None);
    assert!(matches!(
        s.update_applied(lid(1, 5)),
        Err(IOStateError::NotMonotonic { watermark: Watermark::Applied, .. })
    ));
    assert!(matches!(
        s.update_applied(None),
        Err(IOStateError::NotMonotonic { watermark: Watermark::Applied, .. })
    ));
    // From nothing, even absence is not an advance.
    let mut e = IOState::new(Vote::new(1, 0), None, None, None);
    assert!(e.update_applied(None).is_err());
    assert_eq!(e.applied(), None);
}

#[test]
fn log_ids_order_by_term_then_index() {
    let mut s = IOState::new(Vote::new(1, 0), lid(1, 9), None, None);
    // A later term wins even with a smaller index.
    assert_eq!(s.update_applied(lid(2, 1)), Ok(()));
    assert_eq!(s.applied(), Some(&LogId::new(2, 1)));
    assert!(s.update_applied(lid(1, 100)).is_err());
    assert!(LogId::new(1, 9).precedes(&LogId::new(2, 1)));
    assert!(!LogId::new(2, 1).precedes(&LogId::new(1, 9)));
    assert!(LogId::new(2, 1).precedes_or_eq(&LogId::new(2, 1)));
}

#[test]
fn applied_cannot_fall_below_snapshot() {
    let mut s = IOState::new(Vote::new(1, 0), None, lid(1, 10), lid(1, 4));
    assert_eq!(
        s.update_applied(lid(1, 8)),
        Err(IOStateError::OutOfOrder { lower: Watermark::Snapshot, upper: Watermark::Applied })
    );
    let mut p = IOState::new(Vote::new(1, 0), None, None, lid(1, 4));
    assert_eq!(
        p.update_applied(lid(1, 3)),
        Err(IOStateError::OutOfOrder { lower: Watermark::Purged, upper: Watermark::Applied })
    );
    assert_eq!(p.applied(), None);
    assert_eq!(s.update_applied(lid(1, 10)), Ok(()));
}

#[test]
fn snapshot_updates() {
    let mut s = IOState::new(Vote::new(1, 0), lid(1, 10), lid(1, 3), lid(1, 2));
    assert_eq!(s.update_snapshot(lid(1, 6)), Ok(()));
    assert_eq!(s.snapshot(), Some(&LogId::new(1, 6)));
    assert_eq!(
        s.update_snapshot(lid(1, 6)),
        Err(IOStateError::NotMonotonic {
            watermark: Watermark::Snapshot,
            current: lid(1, 6),
            update: lid(1, 6),
        })
    );
    assert_eq!(
        s.update_snapshot(lid(1, 11)),
        Err(IOStateError::OutOfOrder { lower: Watermark::Snapshot, upper: Watermark::Applied })
    );
    assert_eq!(s.snapshot(), Some(&LogId::new(1, 6)));
    let mut p = IOState::new(Vote::new(1, 0), None, None, lid(1, 5));
    assert_eq!(
        p.update_snapshot(lid(1, 4)),
        Err(IOStateError::OutOfOrder { lower: Watermark::Purged, upper: Watermark::Snapshot })
    );
}

#[test]
fn purged_updates() {
    let mut s = IOState::new(Vote::new(1, 0), lid(1, 10), lid(1, 6), lid(1, 2));
    assert_eq!(s.update_purged(lid(1, 2)), Ok(()));
    assert_eq!(s.update_purged(lid(1, 6)), Ok(()));
    assert_eq!(s.purged(), Some(&LogId::new(1, 6)));
    assert_eq!(
        s.update_purged(lid(1, 5)),
        Err(IOStateError::NotMonotonic {
            watermark: Watermark::Purged,
            current: lid(1, 6),
            update: lid(1, 5),
        })
    );
    assert_eq!(
        s.update_purged(lid(1, 7)),
        Err(IOStateError::OutOfOrder { lower: Watermark::Purged, upper: Watermark::Snapshot })
    );
    let mut a = IOState::new(Vote::new(1, 0), lid(1, 3), None, None);
    assert_eq!(
        a.update_purged(lid(1, 4)),
        Err(IOStateError::OutOfOrder { lower: Watermark::Purged, upper: Watermark::Applied })
    );
    assert_eq!(a.purged(), None);
}

#[test]
fn vote_updates() {
    let mut s = IOState::new(Vote::new(2, 1), None, None, None);
    assert_eq!(s.update_vote(Vote::new(2, 1)), Ok(()));
    assert_eq!(s.update_vote(Vote::new(3, 0)), Ok(()));
    assert_eq!(s.vote(), &Vote::new(3, 0));
    assert_eq!(
        s.update_vote(Vote::new(2, 5)),
        Err(IOStateError::StaleVote { held: Vote::new(3, 0), offered: Vote::new(2, 5) })
    );
    assert_eq!(s.vote(), &Vote::new(3, 0));
    assert!(Vote::new(3, 0).is_older_than(&Vote::new(3, 1)));
    assert!(!Vote::new(3, 1).is_older_than(&Vote::new(3, 1)));
}

#[test]
fn building_snapshot_flag() {
    let mut s = IOState::new(Vote::new(1, 0), None, None, None);
    s.set_building_snapshot(true);
    assert!(s.building_snapshot());
    s.set_building_snapshot(false);
    assert!(!s.building_snapshot());
}

#[test]
fn reads_are_pure() {
    let s = IOState::new(Vote::new(4, 2), lid(3, 9), lid(3, 5), lid(2, 8));
    assert_eq!(s.vote(), s.vote());
    assert_eq!(s.applied(), s.applied());
    assert_eq!(s.snapshot(), s.snapshot());
    assert_eq!(s.purged(), s.purged());
    assert_eq!(s.building_snapshot(), s.building_snapshot());
    let copy = s;
    let _ = s.applied();
    assert_eq!(copy, s);
}

fn ordered(s: &IOState) -> bool {
    let le = |a: Option<&LogId>, b: Option<&LogId>| match (a, b) {
        (Some(x), Some(y)) => x.precedes_or_eq(y),
        _ => true,
    };
    le(s.purged(), s.snapshot()) && le(s.snapshot(), s.applied()) && le(s.purged(), s.applied())
}

#[test]
fn watermarks_stay_ordered_over_a_sequence() {
    let mut s = IOState::new(Vote::new(1, 0), None, None, None);
    // A fixed pseudo-random walk of updates; refused ones leave the state unchanged.
    let mut x: u64 = 12345;
    for _ in 0..500 {
        x = x.wrapping_mul(6364136223846793005).wrapping_add(1442695040888963407);
        let id = lid((x >> 60) % 4, (x >> 40) % 32);
        let before = s;
        let r = match (x >> 20) % 3 {
            0 => s.update_applied(id),
            1 => s.update_snapshot(id),
            _ => s.update_purged(id),
        };
        if r.is_err() {
            assert_eq!(before, s);
        }
        assert!(ordered(&s));
    }
    assert!(s.applied().is_some());
}
