use mumble_link::{ErrorCode, MumbleLink, Position, Region, SharedLink, Status};

fn p() -> Position {
    Position::default()
}

#[test]
fn open_failure_folds_into_closed() {
    let region = Region::new_free();
    let link = SharedLink::new("App", "Desc", Err(ErrorCode::ShmOpen), &region);
    match link.status(&region) {
        Status::Closed(e) => assert_eq!(e, ErrorCode::ShmOpen),
        _ => panic!("link must be closed when the mapping failed"),
    }
}

#[test]
fn free_segment_opens_straight_into_active() {
    let region = Region::new_free();
    let link = SharedLink::new("App", "Desc", Ok(()), &region);
    assert!(matches!(link.status(&region), Status::Active));
}

#[test]
fn claimed_segment_opens_into_in_use_with_owner_details() {
    let mut region = Region::new_free();
    let mut owner = MumbleLink::new("OtherGame", "Their description", Ok(())).unwrap();
    owner.update(p(), p(), &mut region);

    let link = SharedLink::new("App", "Desc", Ok(()), &region);
    match link.status(&region) {
        Status::InUse { name, description } => {
            assert_eq!(name, "OtherGame");
            assert_eq!(description, "Their description");
        }
        _ => panic!("link must report the other owner"),
    }
}

#[test]
fn stalled_owner_is_taken_over_after_one_window() {
    let mut region = Region::new_free();
    let mut owner = MumbleLink::new("OtherGame", "Desc", Ok(())).unwrap();
    owner.update(p(), p(), &mut region); // live tick 1, never advances again

    let mut link = SharedLink::new("App", "Desc", Ok(()), &region);
    assert!(matches!(link.status(&region), Status::InUse { .. }));

    for call in 1..100u32 {
        let published = link.update(p(), p(), Ok(()), &mut region);
        assert!(!published, "call {} must not publish", call);
        assert!(matches!(link.status(&region), Status::InUse { .. }));
    }
    // the hundredth call re-evaluates: the heartbeat never advanced
    let published = link.update(p(), p(), Ok(()), &mut region);
    assert!(published);
    assert!(matches!(link.status(&region), Status::Active));
    assert_eq!(region.rec.ui_tick, 100);
    assert_eq!(mumble_link::codec::read(&region.rec.name), "App");

    // once active, every further call publishes
    let published = link.update(p(), p(), Ok(()), &mut region);
    assert!(published);
    assert_eq!(region.rec.ui_tick, 101);
}

#[test]
fn live_owner_keeps_the_segment() {
    let mut region = Region::new_free();
    let mut owner = MumbleLink::new("OtherGame", "Desc", Ok(())).unwrap();
    owner.update(p(), p(), &mut region);

    let mut link = SharedLink::new("App", "Desc", Ok(()), &region);
    for call in 1..=300u32 {
        if call % 100 == 0 {
            // the other owner's heartbeat advances within every window
            owner.update(p(), p(), &mut region);
        }
        let published = link.update(p(), p(), Ok(()), &mut region);
        assert!(!published, "call {} must not publish", call);
        assert!(matches!(link.status(&region), Status::InUse { .. }));
    }
    // the segment still belongs to the other owner
    assert_eq!(mumble_link::codec::read(&region.rec.name), "OtherGame");
}

#[test]
fn deactivate_zeroes_and_frees_the_segment() {
    let mut region = Region::new_free();
    let mut link = SharedLink::new("App", "Desc", Ok(()), &region);
    let published = link.update(p(), p(), Ok(()), &mut region);
    assert!(published);
    assert_ne!(region.rec.ui_version, 0);

    link.deactivate(&mut region);
    assert_eq!(region.rec, mumble_link::LinkedMem::zeroed());
    match link.status(&region) {
        Status::Closed(e) => assert_eq!(e, ErrorCode::ManuallyClosed),
        _ => panic!("deactivated link must be closed"),
    }

    // a later open elsewhere sees the freed segment and is active at once
    let next = SharedLink::new("Next", "Desc", Ok(()), &region);
    assert!(matches!(next.status(&region), Status::Active));
}

#[test]
fn deactivate_while_in_use_leaves_the_owner_alone() {
    let mut region = Region::new_free();
    let mut owner = MumbleLink::new("OtherGame", "Desc", Ok(())).unwrap();
    owner.update(p(), p(), &mut region);
    let before = region.rec.clone();

    let mut link = SharedLink::new("App", "Desc", Ok(()), &region);
    link.deactivate(&mut region);
    assert_eq!(region.rec, before);
    assert!(matches!(link.status(&region), Status::Closed(_)));
}

#[test]
fn status_never_mutates_the_segment() {
    let mut region = Region::new_free();
    let mut owner = MumbleLink::new("OtherGame", "Desc", Ok(())).unwrap();
    owner.update(p(), p(), &mut region);

    let closed = SharedLink::new("App", "Desc", Err(ErrorCode::MMap), &region);
    let in_use = SharedLink::new("App", "Desc", Ok(()), &region);
    let before = region.rec.clone();
    for _ in 0..10 {
        let _ = closed.status(&region);
        let _ = in_use.status(&region);
    }
    assert_eq!(region.rec, before);

    let free = Region::new_free();
    let active = SharedLink::new("App", "Desc", Ok(()), &free);
    let before = free.rec.clone();
    for _ in 0..10 {
        let _ = active.status(&free);
    }
    assert_eq!(free.rec, before);
}

#[test]
fn closed_link_reopens_at_the_window() {
    // mapping unavailable at first: the link stays closed through the window
    let mut region = Region::new_free();
    let mut link = SharedLink::new("App", "Desc", Err(ErrorCode::ShmOpen), &region);
    for _ in 0..150 {
        let published = link.update(p(), p(), Err(ErrorCode::ShmOpen), &mut region);
        assert!(!published);
    }
    assert!(matches!(link.status(&region), Status::Closed(_)));

    // the mapping comes back: the next window's re-open lands on the free
    // segment and the same call publishes
    let mut became_active = false;
    for _ in 0..100 {
        let published = link.update(p(), p(), Ok(()), &mut region);
        if published {
            became_active = true;
            break;
        }
    }
    assert!(became_active);
    assert!(matches!(link.status(&region), Status::Active));
}

#[test]
fn shared_updates_mutate_the_shadow_even_while_in_use() {
    let mut region = Region::new_free();
    let mut owner = MumbleLink::new("OtherGame", "Desc", Ok(())).unwrap();
    owner.update(p(), p(), &mut region);

    let mut link = SharedLink::new("App", "Desc", Ok(()), &region);
    link.set_identity("Me");
    link.set_context(&[9, 9]);
    for _ in 0..3 {
        link.update(p(), p(), Ok(()), &mut region);
    }
    assert_eq!(link.local.ui_tick, 3);
    assert_eq!(mumble_link::codec::read(&link.local.identity), "Me");
    assert_eq!(link.local.context_len, 2);
    // nothing of it reached the segment
    assert_eq!(region.rec.ui_tick, 1);
    assert_eq!(mumble_link::codec::read(&region.rec.identity), "");
}
