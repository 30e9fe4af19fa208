use meeting_rooms::common::{Phase, ServiceError};
use meeting_rooms::entities::room::Model;
use meeting_rooms::services::room::{
    DrawAction, DrawEvent, DrawState, RoomService, CODE_SPACE, MAX_DRAWS,
};
use rand::rngs::StdRng;
use rand::SeedableRng;

fn room(id: i32, code: &str, end_time: i64) -> Model {
    Model {
        id,
        code: code.to_string(),
        is_canceled: false,
        cur_egress_id: String::new(),
        record_videos: String::new(),
        start_time: end_time - 3600,
        end_time,
        admin: "admin".to_string(),
    }
}

fn is_code(text: &str) -> bool {
    text.len() == 9 && text.chars().all(|c| c.is_ascii_digit())
}

#[test]
fn code_is_zero_padded_to_nine_digits() {
    assert_eq!(RoomService::format_code(5), "000000005");
    assert_eq!(RoomService::format_code(42), "000000042");
    assert_eq!(RoomService::format_code(0), "000000000");
    assert_eq!(RoomService::format_code(123_456_789), "123456789");
    assert_eq!(RoomService::format_code(999_999_999), "999999999");
    assert_eq!(RoomService::format_code(100_000_000), "100000000");
}

#[test]
fn number_beyond_the_code_space_keeps_its_last_nine_digits() {
    assert_eq!(RoomService::format_code(1_000_000_000), "000000000");
    assert_eq!(RoomService::format_code(u32::MAX), "294967295");
}

#[test]
fn drawing_starts_with_a_check() {
    let mut rng = StdRng::seed_from_u64(1);
    let (state, action) = RoomService::get_no_dup_code::<String>(
        &mut rng,
        DrawState::Idle,
        DrawEvent::Begin { now: 1_700_000_000 },
    );
    match (state, action) {
        (
            DrawState::Checking { candidate, draws, now },
            DrawAction::Check { code, now: asked },
        ) => {
            assert!(candidate < CODE_SPACE);
            assert_eq!(draws, 1);
            assert_eq!(now, 1_700_000_000);
            assert_eq!(asked, 1_700_000_000);
            assert_eq!(code, RoomService::format_code(candidate));
            assert!(is_code(&code));
        }
        other => panic!("unexpected step {:?}", other),
    }
}

#[test]
fn free_code_is_returned() {
    let mut rng = StdRng::seed_from_u64(2);
    let (state, action) = RoomService::get_no_dup_code::<String>(
        &mut rng,
        DrawState::Checking { candidate: 42, draws: 3, now: 10 },
        DrawEvent::Checked(Ok(false)),
    );
    assert_eq!(state, DrawState::Closed);
    assert_eq!(action, DrawAction::Finish(Ok("000000042".to_string())));
}

#[test]
fn held_code_is_drawn_again_at_the_same_time() {
    let mut rng = StdRng::seed_from_u64(3);
    let (state, action) = RoomService::get_no_dup_code::<String>(
        &mut rng,
        DrawState::Checking { candidate: 42, draws: 3, now: 10 },
        DrawEvent::Checked(Ok(true)),
    );
    match (state, action) {
        (DrawState::Checking { candidate, draws, now }, DrawAction::Check { code, now: asked }) => {
            assert!(candidate < CODE_SPACE);
            assert_eq!(draws, 4);
            assert_eq!((now, asked), (10, 10));
            assert_eq!(code, RoomService::format_code(candidate));
        }
        other => panic!("unexpected step {:?}", other),
    }
}

#[test]
fn drawing_gives_up_after_the_last_draw() {
    let mut rng = StdRng::seed_from_u64(4);
    let (state, action) = RoomService::get_no_dup_code::<String>(
        &mut rng,
        DrawState::Checking { candidate: 42, draws: MAX_DRAWS, now: 10 },
        DrawEvent::Checked(Ok(true)),
    );
    assert_eq!(state, DrawState::Closed);
    assert_eq!(action, DrawAction::Finish(Err(ServiceError::CodeSpaceExhausted)));
    let (state, _) = RoomService::get_no_dup_code::<String>(
        &mut rng,
        DrawState::Checking { candidate: 42, draws: MAX_DRAWS - 1, now: 10 },
        DrawEvent::Checked(Ok(true)),
    );
    assert!(matches!(state, DrawState::Checking { draws: MAX_DRAWS, .. }));
}

#[test]
fn store_that_always_says_held_exhausts_the_draws() {
    let mut rng = StdRng::seed_from_u64(5);
    let mut step = RoomService::get_no_dup_code::<String>(
        &mut rng,
        DrawState::Idle,
        DrawEvent::Begin { now: 0 },
    );
    let mut checks = 0;
    while let DrawAction::Check { .. } = step.1 {
        checks += 1;
        step = RoomService::get_no_dup_code(&mut rng, step.0, DrawEvent::Checked(Ok(true)));
    }
    assert_eq!(checks, 1000);
    assert_eq!(step.1, DrawAction::Finish(Err(ServiceError::CodeSpaceExhausted)));
}

#[test]
fn failed_check_ends_the_drawing() {
    let mut rng = StdRng::seed_from_u64(6);
    let (state, action) = RoomService::get_no_dup_code(
        &mut rng,
        DrawState::Checking { candidate: 1, draws: 1, now: 10 },
        DrawEvent::Checked(Err("timeout".to_string())),
    );
    assert_eq!(state, DrawState::Closed);
    assert_eq!(
        action,
        DrawAction::Finish(Err(ServiceError::StoreUnavailable {
            phase: Phase::CodeCheck,
            cause: "timeout".to_string()
        }))
    );
}

#[test]
fn draw_event_out_of_turn_is_rejected() {
    let mut rng = StdRng::seed_from_u64(7);
    let (state, action) = RoomService::get_no_dup_code::<u8>(
        &mut rng,
        DrawState::Idle,
        DrawEvent::Checked(Ok(false)),
    );
    assert_eq!((state, action), (DrawState::Idle, DrawAction::Reject));
    let waiting = DrawState::Checking { candidate: 1, draws: 1, now: 10 };
    let (state, action) =
        RoomService::get_no_dup_code::<u8>(&mut rng, waiting, DrawEvent::Begin { now: 3 });
    assert_eq!((state, action), (waiting, DrawAction::Reject));
    let (state, action) =
        RoomService::get_no_dup_code::<u8>(&mut rng, DrawState::Closed, DrawEvent::Begin { now: 3 });
    assert_eq!((state, action), (DrawState::Closed, DrawAction::Reject));
}

#[test]
fn drawn_numbers_stay_in_the_code_space_and_vary() {
    let mut rng = StdRng::seed_from_u64(8);
    let mut seen = std::collections::HashSet::new();
    let mut state = DrawState::Checking { candidate: 0, draws: 1, now: 0 };
    for _ in 0..500 {
        let (next, _) =
            RoomService::get_no_dup_code::<u8>(&mut rng, state, DrawEvent::Checked(Ok(true)));
        match next {
            DrawState::Checking { candidate, .. } => {
                assert!(candidate < CODE_SPACE);
                seen.insert(candidate);
            }
            other => panic!("unexpected state {:?}", other),
        }
        state = DrawState::Checking { candidate: 0, draws: 1, now: 0 };
    }
    assert!(seen.len() > 400);
}

#[test]
fn held_means_same_code_and_end_after_now() {
    let all = vec![room(1, "000000001", 100), room(2, "000000002", 50)];
    assert!(RoomService::code_is_held(&all, &"000000001".to_string(), 99));
    assert!(!RoomService::code_is_held(&all, &"000000001".to_string(), 100));
    assert!(!RoomService::code_is_held(&all, &"000000001".to_string(), 101));
    assert!(!RoomService::code_is_held(&all, &"000000003".to_string(), 0));
    assert!(!RoomService::code_is_held(&all, &"1".to_string(), 0));
    assert!(RoomService::code_is_held(&all, &"000000002".to_string(), 49));
    assert!(!RoomService::code_is_held(&vec![], &"000000002".to_string(), 49));
}

#[test]
fn drawn_codes_avoid_active_rooms() {
    let now = 1_000;
    let mut probe = StdRng::seed_from_u64(9);
    let mut all = Vec::new();
    for id in 0..20 {
        let code = RoomService::get_no_dup_code_among(&vec![], now, &mut probe).unwrap();
        all.push(room(id, &code, now + 1 + id as i64));
    }
    let mut rng = StdRng::seed_from_u64(9);
    for _ in 0..50 {
        let code = RoomService::get_no_dup_code_among(&all, now, &mut rng).unwrap();
        assert!(is_code(&code));
        assert!(all.iter().all(|r| r.code != code));
    }
}

#[test]
fn code_of_an_ended_room_may_come_back() {
    let now = 1_000;
    let first = RoomService::get_no_dup_code_among(&vec![], now, &mut StdRng::seed_from_u64(10))
        .unwrap();
    let ended = vec![room(1, &first, now), room(2, &first, now - 5)];
    let again = RoomService::get_no_dup_code_among(&ended, now, &mut StdRng::seed_from_u64(10));
    assert_eq!(again, Some(first.clone()));
    let active = vec![room(1, &first, now + 1)];
    let other = RoomService::get_no_dup_code_among(&active, now, &mut StdRng::seed_from_u64(10))
        .unwrap();
    assert!(other != first);
    assert!(is_code(&other));
}

#[test]
fn found_room_is_handed_on() {
    let r = room(7, "000000007", 10);
    assert_eq!(RoomService::get_room_by_id::<String>(7, Ok(Some(r.clone()))), Ok(r));
}

#[test]
fn missing_room_is_not_found() {
    assert_eq!(
        RoomService::get_room_by_id::<String>(7, Ok(None)),
        Err(ServiceError::NotFound("room not found: 7".to_string()))
    );
    assert_eq!(
        RoomService::get_room_by_id::<String>(-12, Ok(None)),
        Err(ServiceError::NotFound("room not found: -12".to_string()))
    );
}

#[test]
fn failed_lookup_is_handed_on() {
    assert_eq!(
        RoomService::get_room_by_id(7, Err("down".to_string())),
        Err(ServiceError::StoreUnavailable { phase: Phase::Lookup, cause: "down".to_string() })
    );
}
