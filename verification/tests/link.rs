use mumble_link::codec::read;
use mumble_link::{ErrorCode, LinkedMem, MumbleLink, Position, Region, Vec3};

#[test]
fn open_fails_with_the_mapping_error() {
    let r = MumbleLink::new("App", "Desc", Err(ErrorCode::OpenFileMappingW));
    match r {
        Err(e) => assert_eq!(e, ErrorCode::OpenFileMappingW),
        Ok(_) => panic!("open must fail when the mapping failed"),
    }
}

#[test]
fn open_carries_name_and_description() {
    let link = MumbleLink::new("App", "Desc", Ok(())).unwrap();
    assert_eq!(read(&link.local.name), "App");
    assert_eq!(read(&link.local.description), "Desc");
    assert_eq!(read(&link.local.identity), "");
    assert_eq!(link.local.ui_version, 2);
    assert_eq!(link.local.ui_tick, 0);
    assert_eq!(link.local.context_len, 0);
}

#[test]
fn five_updates_publish_tick_five_and_zero_avatar() {
    // scenario: open with "App"/"Desc", five updates with a zeroed avatar
    let mut region = Region::new_free();
    let mut link = MumbleLink::new("App", "Desc", Ok(())).unwrap();
    let zero = Position::zero();
    for _ in 0..5 {
        link.update(zero, zero, &mut region);
    }
    assert_eq!(region.rec.ui_tick, 5);
    assert_ne!(region.rec.ui_version, 0);
    assert_eq!(region.rec.avatar, Position::zero());
    assert_eq!(read(&region.rec.name), "App");
    assert_eq!(read(&region.rec.description), "Desc");
}

#[test]
fn tick_wraps_from_maximum_to_zero() {
    let mut region = Region::new_free();
    let mut link = MumbleLink::new("App", "Desc", Ok(())).unwrap();
    link.local.ui_tick = u32::MAX;
    let p = Position::default();
    link.update(p, p, &mut region);
    assert_eq!(link.local.ui_tick, 0);
    assert_eq!(region.rec.ui_tick, 0);
    link.update(p, p, &mut region);
    assert_eq!(region.rec.ui_tick, 1);
}

#[test]
fn update_forwards_positions_verbatim() {
    let mut region = Region::new_free();
    let mut link = MumbleLink::new("App", "Desc", Ok(())).unwrap();
    let avatar = Position {
        position: Vec3 { x: 1, y: 2, z: 3 },
        front: Vec3 { x: 4, y: 5, z: 6 },
        top: Vec3 { x: 7, y: 8, z: 9 },
    };
    let camera = Position::default();
    link.update(avatar, camera, &mut region);
    assert_eq!(region.rec.avatar, avatar);
    assert_eq!(region.rec.camera, camera);
}

#[test]
fn set_context_truncates_to_256_bytes() {
    let mut link = MumbleLink::new("App", "Desc", Ok(())).unwrap();
    let long = vec![0xABu8; 300];
    link.set_context(&long);
    assert_eq!(link.local.context_len, 256);
    assert_eq!(&link.local.context[..], &long[..256]);

    link.set_context(&[1, 2, 3]);
    assert_eq!(link.local.context_len, 3);
    assert_eq!(&link.local.context[..3], &[1, 2, 3]);
    // the tail beyond the recorded length is not cleared
    assert_eq!(link.local.context[3], 0xAB);
}

#[test]
fn set_identity_encodes_into_the_identity_buffer() {
    let mut link = MumbleLink::new("App", "Desc", Ok(())).unwrap();
    link.set_identity("Player One");
    assert_eq!(read(&link.local.identity), "Player One");
    link.set_identity("P2");
    assert_eq!(read(&link.local.identity), "P2");
}

#[test]
fn close_zeroes_the_region() {
    let mut region = Region::new_free();
    let mut link = MumbleLink::new("App", "Desc", Ok(())).unwrap();
    let p = Position::default();
    link.update(p, p, &mut region);
    assert_ne!(region.rec.ui_version, 0);
    link.close(&mut region);
    assert_eq!(region.rec.ui_version, 0);
    assert_eq!(region.rec, LinkedMem::zeroed());
}

#[test]
fn error_codes_and_messages() {
    assert_eq!(ErrorCode::Success.code(), 0);
    assert_eq!(ErrorCode::OpenFileMappingW.code(), 1);
    assert_eq!(ErrorCode::MapViewOfFile.code(), 2);
    assert_eq!(ErrorCode::ShmOpen.code(), 3);
    assert_eq!(ErrorCode::MMap.code(), 4);
    assert_eq!(ErrorCode::NoMem.code(), 5);
    assert_eq!(ErrorCode::Unknown.code(), 6);
    assert_eq!(ErrorCode::NoMem.message(), "shared memory was not initialized");
    assert_eq!(ErrorCode::Unknown.message(), "unknown Error");
    assert_eq!(ErrorCode::ShmOpen.message(), "shm_open returned a negative integer");
}
