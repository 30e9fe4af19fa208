use livekit_api::access_token::{TokenVerifier, VideoGrants};
use meeting_rooms::api::room::{
    admin_gate, create_room, find_room_by_code, get_room_token, get_rooms, is_known, join_request,
    member_names, naming_refusal, patch_of, record_room, room_token_answer, sign_join_token,
    stop_record, update_room, users_not_found,
    CreateRoomAction, CreateRoomEvent, CreateRoomReq, EgressCall, EncodingPreset,
    JoinRequest, LiveKitEgressInfoRes, RecordAction, RecordEvent, RoomListRes, RoomNode,
    RoomPatch, RoomTokenRes, RoomsAction, RoomsEvent, S3Target, StopAction, TokenAction,
    TokenEvent, UpdateRoomAction, UpdateRoomEvent, UpdateRoomReq,
};
use meeting_rooms::common::{AppState, BaseResponse, LiveKitEgressInfo, LiveKitToken};
use meeting_rooms::entities::room::{Model, NewModel};
use meeting_rooms::entities::{room_user, user};

fn names(list: &[&str]) -> Vec<String> {
    list.iter().map(|s| s.to_string()).collect()
}

fn room(id: i32, code: &str, admin: &str) -> Model {
    Model {
        id,
        code: code.to_string(),
        is_canceled: false,
        cur_egress_id: "eg".to_string(),
        record_videos: "vids".to_string(),
        start_time: 100,
        end_time: 200,
        admin: admin.to_string(),
    }
}

fn users(list: &[&str]) -> Vec<user::Model> {
    list.iter().map(|s| user::Model { id: s.to_string(), password: "h".to_string() }).collect()
}

fn refused(msg: &str) -> BaseResponse {
    BaseResponse { ret: -1, msg: msg.to_string() }
}

fn accepted(msg: &str) -> BaseResponse {
    BaseResponse { ret: 0, msg: msg.to_string() }
}

fn settings() -> AppState {
    AppState {
        jwt_auth_secret: "jwt".to_string(),
        livekit_secret: "lk-secret".to_string(),
        livekit_key: "lk-key".to_string(),
        livekit_url: "https://lk.example".to_string(),
        s3_access_key: "ak".to_string(),
        s3_secret: "sk".to_string(),
        s3_endpoint: "https://s3.example".to_string(),
        s3_bucket: "recordings".to_string(),
        gpt_api_key: "gk".to_string(),
        gpt_base_url: "https://llm.example".to_string(),
    }
}

#[test]
fn only_the_admin_passes_the_gate() {
    let alice = "alice".to_string();
    assert_eq!(admin_gate(&None, &alice), Err(refused("找不到对应会议")));
    assert_eq!(admin_gate(&Some(room(1, "c", "bob")), &alice), Err(refused("非管理员无权操作")));
    assert_eq!(admin_gate(&Some(room(1, "c", "alice")), &alice), Ok(()));
}

#[test]
fn recording_steps() {
    let alice = "alice".to_string();
    let s = settings();
    let refuse = |msg: &str| {
        RecordAction::Respond(LiveKitEgressInfoRes { base: refused(msg), data: None })
    };
    assert_eq!(record_room(12, &alice, &s, RecordEvent::Begin), RecordAction::LoadRoom { id: 12 });
    assert_eq!(record_room(12, &alice, &s, RecordEvent::RoomLoaded(None)), refuse("找不到对应会议"));
    assert_eq!(
        record_room(12, &alice, &s, RecordEvent::RoomLoaded(Some(room(12, "c", "bob")))),
        refuse("非管理员无权操作")
    );
    assert_eq!(
        record_room(12, &alice, &s, RecordEvent::RoomLoaded(Some(room(12, "c", "alice")))),
        RecordAction::LockClient
    );
    assert_eq!(record_room(12, &alice, &s, RecordEvent::ClientLocked(false)), refuse("获取 egress 失败"));
    assert_eq!(record_room(12, &alice, &s, RecordEvent::Started(None)), refuse("录制会议失败"));
    assert_eq!(record_room(12, &alice, &s, RecordEvent::Stopped(true)), refuse("录制会议失败"));
    assert_eq!(
        record_room(12, &alice, &s, RecordEvent::Started(Some("EG_1".to_string()))),
        RecordAction::Respond(LiveKitEgressInfoRes {
            base: accepted("会议录制进行中"),
            data: Some(LiveKitEgressInfo { egress_id: "EG_1".to_string() })
        })
    );
}

#[test]
fn recording_goes_to_the_configured_bucket() {
    let action = record_room(-12, &"alice".to_string(), &settings(), RecordEvent::ClientLocked(true));
    assert_eq!(
        action,
        RecordAction::Start(EgressCall {
            room_name: "-12".to_string(),
            filepath: "{room_name}/{time}.mp4".to_string(),
            s3: S3Target {
                access_key: "ak".to_string(),
                secret: "sk".to_string(),
                endpoint: "https://s3.example".to_string(),
                bucket: "recordings".to_string(),
                force_path_style: true,
            },
            layout: "grid".to_string(),
            encoding: EncodingPreset::Hd1080At30,
            audio_only: false,
        })
    );
}

#[test]
fn stop_recording_steps() {
    let alice = "alice".to_string();
    let eg = "EG_1".to_string();
    assert_eq!(stop_record(3, &eg, &alice, RecordEvent::Begin), StopAction::LoadRoom { id: 3 });
    assert_eq!(
        stop_record(3, &eg, &alice, RecordEvent::RoomLoaded(None)),
        StopAction::Respond(refused("找不到对应会议"))
    );
    assert_eq!(
        stop_record(3, &eg, &alice, RecordEvent::RoomLoaded(Some(room(3, "c", "bob")))),
        StopAction::Respond(refused("非管理员无权操作"))
    );
    assert_eq!(
        stop_record(3, &eg, &alice, RecordEvent::RoomLoaded(Some(room(3, "c", "alice")))),
        StopAction::LockClient
    );
    assert_eq!(
        stop_record(3, &eg, &alice, RecordEvent::ClientLocked(false)),
        StopAction::Respond(refused("获取 egress 失败"))
    );
    assert_eq!(
        stop_record(3, &eg, &alice, RecordEvent::ClientLocked(true)),
        StopAction::Stop { egress_id: eg.clone() }
    );
    assert_eq!(
        stop_record(3, &eg, &alice, RecordEvent::Stopped(false)),
        StopAction::Respond(refused("停止会议录制失败"))
    );
    assert_eq!(
        stop_record(3, &eg, &alice, RecordEvent::Started(None)),
        StopAction::Respond(refused("停止会议录制失败"))
    );
    assert_eq!(
        stop_record(3, &eg, &alice, RecordEvent::Stopped(true)),
        StopAction::Respond(accepted("会议录制已停止"))
    );
}

#[test]
fn first_room_with_the_code_is_found() {
    let all = vec![
        None,
        Some(room(1, "000000001", "a")),
        Some(room(2, "000000002", "a")),
        Some(room(3, "000000002", "b")),
    ];
    assert_eq!(find_room_by_code(&all, &"000000002".to_string()), Some(2));
    assert_eq!(find_room_by_code(&all, &"000000001".to_string()), Some(1));
    assert_eq!(find_room_by_code(&all, &"000000009".to_string()), None);
    assert_eq!(find_room_by_code(&vec![None, None], &"".to_string()), None);
}

fn join_for(room: &str, caller: &str) -> JoinRequest {
    JoinRequest {
        key: "lk-key".to_string(),
        secret: "lk-secret".to_string(),
        identity: caller.to_string(),
        room_join: true,
        room: room.to_string(),
    }
}

#[test]
fn join_steps() {
    let alice = "alice".to_string();
    let s = settings();
    let code = "000000002".to_string();
    let refuse = |msg: &str| TokenAction::Respond(RoomTokenRes { base: refused(msg), data: None });
    assert_eq!(
        get_room_token(&code, &alice, &s, TokenEvent::Begin),
        TokenAction::LoadRooms { user_id: alice.clone() }
    );
    assert_eq!(
        get_room_token(&code, &alice, &s, TokenEvent::RoomsLoaded(vec![None, Some(room(1, "000000001", "a"))])),
        refuse("找不到对应会议")
    );
    assert_eq!(get_room_token(&code, &alice, &s, TokenEvent::RoomsLoaded(vec![])), refuse("找不到对应会议"));
    let mut canceled = room(2, "000000002", "a");
    canceled.is_canceled = true;
    assert_eq!(
        get_room_token(&code, &alice, &s, TokenEvent::RoomsLoaded(vec![Some(canceled.clone())])),
        refuse("会议已取消")
    );
    assert_eq!(
        get_room_token(
            &code,
            &alice,
            &s,
            TokenEvent::RoomsLoaded(vec![Some(canceled), Some(room(3, "000000002", "a"))])
        ),
        refuse("会议已取消")
    );
}

#[test]
fn join_asks_for_a_token_for_the_caller_and_the_room() {
    let action = get_room_token(
        &"000000002".to_string(),
        &"alice".to_string(),
        &settings(),
        TokenEvent::RoomsLoaded(vec![
            Some(room(5, "000000001", "bob")),
            None,
            Some(room(77, "000000002", "bob")),
            Some(room(78, "000000002", "alice")),
        ]),
    );
    assert_eq!(action, TokenAction::Sign(join_for("77", "alice")));
    assert_eq!(
        join_request(&room(-3, "c", "bob"), &"carol".to_string(), &settings()),
        join_for("-3", "carol")
    );
}

#[test]
fn join_hands_the_signed_token_on() {
    let s = settings();
    let code = "000000002".to_string();
    let alice = "alice".to_string();
    assert_eq!(
        get_room_token(&code, &alice, &s, TokenEvent::Signed(Some("a.b.c".to_string()))),
        TokenAction::Respond(RoomTokenRes {
            base: accepted("获取 room token 成功"),
            data: Some(LiveKitToken { livekit_token: "a.b.c".to_string() })
        })
    );
    assert_eq!(
        get_room_token(&code, &alice, &s, TokenEvent::Signed(None)),
        TokenAction::Respond(RoomTokenRes { base: refused("获取 room token 失败"), data: None })
    );
}

#[test]
fn join_token_is_a_signed_token() {
    let token = sign_join_token(&join_for("77", "alice")).expect("a token");
    assert_eq!(token.split('.').count(), 3);
    assert!(token != "alice");
    let claims = TokenVerifier::with_api_key("lk-key", "lk-secret").verify(&token).expect("claims");
    assert_eq!(claims.sub, "alice");
    assert_eq!(claims.iss, "lk-key");
    assert_eq!(
        claims.video,
        VideoGrants { room_join: true, room: "77".to_string(), ..Default::default() }
    );
    assert!(TokenVerifier::with_api_key("lk-key", "another").verify(&token).is_err());
}

#[test]
fn join_token_needs_key_secret_identity_and_room() {
    let mut req = join_for("77", "alice");
    req.key = String::new();
    assert_eq!(sign_join_token(&req), None);
    let mut req = join_for("77", "alice");
    req.secret = String::new();
    assert_eq!(sign_join_token(&req), None);
    assert_eq!(sign_join_token(&join_for("77", "")), None);
    assert_eq!(sign_join_token(&join_for("", "alice")), None);
}

#[test]
fn token_without_a_grant_to_join_needs_no_room() {
    let mut req = join_for("", "");
    req.room_join = false;
    let token = sign_join_token(&req).expect("a token");
    let claims = TokenVerifier::with_api_key("lk-key", "lk-secret").verify(&token).expect("claims");
    assert_eq!(claims.video, VideoGrants::default());
}

#[test]
fn join_answer_from_the_token() {
    assert_eq!(
        room_token_answer(Some("t".to_string())),
        RoomTokenRes {
            base: accepted("获取 room token 成功"),
            data: Some(LiveKitToken { livekit_token: "t".to_string() })
        }
    );
    assert_eq!(
        room_token_answer(None),
        RoomTokenRes { base: refused("获取 room token 失败"), data: None }
    );
}

#[test]
fn listing_steps() {
    let alice = "alice".to_string();
    assert_eq!(
        get_rooms(&alice, RoomsEvent::Begin),
        RoomsAction::LoadRooms { user_id: alice.clone() }
    );
    assert_eq!(
        get_rooms(
            &alice,
            RoomsEvent::RoomsLoaded(vec![Some(room(1, "c1", "a")), None, Some(room(2, "c2", "b"))])
        ),
        RoomsAction::LoadMembers { rooms: vec![room(1, "c1", "a"), room(2, "c2", "b")] }
    );
    let row = |id: i32, u: &str, r: i32| room_user::Model { id, user_id: u.to_string(), room_id: r };
    let action = get_rooms(
        &alice,
        RoomsEvent::MembersLoaded(vec![
            (room(1, "c1", "a"), Some(vec![row(1, "alice", 1), row(2, "bob", 1)])),
            (room(2, "c2", "b"), None),
            (room(3, "c3", "alice"), Some(vec![])),
        ]),
    );
    assert_eq!(
        action,
        RoomsAction::Respond(RoomListRes {
            base: accepted("获取 room token 成功"),
            data: Some(vec![
                RoomNode {
                    id: 1,
                    code: "c1".to_string(),
                    is_canceled: false,
                    start_time: 100,
                    end_time: 200,
                    admin: "a".to_string(),
                    users_ids: names(&["alice", "bob"]),
                },
                RoomNode {
                    id: 3,
                    code: "c3".to_string(),
                    is_canceled: false,
                    start_time: 100,
                    end_time: 200,
                    admin: "alice".to_string(),
                    users_ids: vec![],
                },
            ])
        })
    );
    assert_eq!(
        get_rooms(&alice, RoomsEvent::MembersLoaded(vec![])),
        RoomsAction::Respond(RoomListRes {
            base: accepted("获取 room token 成功"),
            data: Some(vec![])
        })
    );
}

#[test]
fn member_names_in_row_order() {
    let row = |id: i32, u: &str| room_user::Model { id, user_id: u.to_string(), room_id: 1 };
    assert_eq!(member_names(&vec![row(2, "b"), row(1, "a"), row(3, "b")]), names(&["b", "a", "b"]));
}

#[test]
fn users_that_do_not_exist_are_named() {
    let found = users(&["alice", "bob"]);
    assert!(is_known(&found, &"bob".to_string()));
    assert!(!is_known(&found, &"h".to_string()));
    assert_eq!(users_not_found(&names(&["zed", "alice", "yan", "zed"]), &found), names(&["zed", "yan", "zed"]));
    assert_eq!(users_not_found(&names(&["bob", "alice"]), &found), Vec::<String>::new());
    assert_eq!(naming_refusal("A ", "[x]"), refused("A [x] 不存在"));
}

#[test]
fn booking_needs_two_participants() {
    let caller = "alice".to_string();
    for list in [vec![], vec!["alice"]] {
        let body = CreateRoomReq { start_time: 1, end_time: 2, users_ids: names(&list) };
        assert_eq!(
            create_room(&body, &caller, CreateRoomEvent::Begin),
            CreateRoomAction::Respond(refused("会议创建失败, 与会人数不足"))
        );
    }
    let body = CreateRoomReq { start_time: 1, end_time: 2, users_ids: names(&["alice", "bob"]) };
    assert_eq!(
        create_room(&body, &caller, CreateRoomEvent::Begin),
        CreateRoomAction::LoadUsers { ids: names(&["alice", "bob"]) }
    );
}

#[test]
fn booking_steps() {
    let caller = "alice".to_string();
    let body = CreateRoomReq { start_time: 10, end_time: 20, users_ids: names(&["alice", "bob"]) };
    let fail = CreateRoomAction::Respond(refused("会议创建失败"));
    assert_eq!(create_room(&body, &caller, CreateRoomEvent::UsersLoaded(None)), fail);
    assert_eq!(
        create_room(&body, &caller, CreateRoomEvent::UsersLoaded(Some(users(&["bob", "alice"])))),
        CreateRoomAction::DrawCode
    );
    assert_eq!(
        create_room(&body, &caller, CreateRoomEvent::UsersLoaded(Some(users(&["alice"])))),
        CreateRoomAction::Respond(refused("会议创建失败, 用户 [\"bob\"] 不存在"))
    );
    assert_eq!(
        create_room(&body, &caller, CreateRoomEvent::UsersLoaded(Some(vec![]))),
        CreateRoomAction::Respond(refused("会议创建失败, 用户 [\"alice\", \"bob\"] 不存在"))
    );
    assert_eq!(create_room(&body, &caller, CreateRoomEvent::CodeDrawn(None)), fail);
    assert_eq!(
        create_room(&body, &caller, CreateRoomEvent::CodeDrawn(Some("000000042".to_string()))),
        CreateRoomAction::CreateRoom(NewModel {
            code: "000000042".to_string(),
            start_time: 10,
            end_time: 20,
            admin: "alice".to_string()
        })
    );
    assert_eq!(
        create_room(&body, &caller, CreateRoomEvent::RoomCreated { id: 5 }),
        CreateRoomAction::AddMembers {
            rows: vec![
                room_user::NewModel { user_id: "alice".to_string(), room_id: 5 },
                room_user::NewModel { user_id: "bob".to_string(), room_id: 5 },
            ]
        }
    );
    assert_eq!(create_room(&body, &caller, CreateRoomEvent::MembersAdded(false)), fail);
    assert_eq!(
        create_room(&body, &caller, CreateRoomEvent::MembersAdded(true)),
        CreateRoomAction::Respond(accepted("会议创建成功"))
    );
}

#[test]
fn names_in_a_refusal_are_escaped() {
    let caller = "alice".to_string();
    let body = CreateRoomReq { start_time: 10, end_time: 20, users_ids: names(&["a\"b", "c\\d"]) };
    assert_eq!(
        create_room(&body, &caller, CreateRoomEvent::UsersLoaded(Some(vec![]))),
        CreateRoomAction::Respond(refused("会议创建失败, 用户 [\"a\\\"b\", \"c\\\\d\"] 不存在"))
    );
}

#[test]
fn room_without_participants_is_booked_without_rows() {
    let body = CreateRoomReq { start_time: 10, end_time: 20, users_ids: vec![] };
    assert_eq!(
        create_room(&body, &"alice".to_string(), CreateRoomEvent::RoomCreated { id: 5 }),
        CreateRoomAction::Respond(accepted("会议创建成功"))
    );
}

fn change(users: Option<&[&str]>) -> UpdateRoomReq {
    UpdateRoomReq {
        start_time: Some(30),
        end_time: None,
        admin: Some("bob".to_string()),
        is_canceled: Some(true),
        user_ids: users.map(names),
    }
}

fn patch() -> RoomPatch {
    RoomPatch {
        id: 8,
        start_time: Some(30),
        end_time: None,
        admin: Some("bob".to_string()),
        is_canceled: Some(true),
    }
}

#[test]
fn patch_takes_what_the_request_sets() {
    assert_eq!(patch_of(8, &change(None)), patch());
    let nothing = UpdateRoomReq {
        start_time: None,
        end_time: Some(4),
        admin: None,
        is_canceled: None,
        user_ids: None,
    };
    assert_eq!(
        patch_of(-1, &nothing),
        RoomPatch { id: -1, start_time: None, end_time: Some(4), admin: None, is_canceled: None }
    );
}

#[test]
fn change_is_for_the_admin_only() {
    let caller = "alice".to_string();
    let body = change(None);
    assert_eq!(
        update_room(8, &body, &caller, UpdateRoomEvent::Begin),
        UpdateRoomAction::LoadRoom { id: 8 }
    );
    assert_eq!(
        update_room(8, &body, &caller, UpdateRoomEvent::RoomLoaded(None)),
        UpdateRoomAction::Respond(refused("找不到对应会议"))
    );
    assert_eq!(
        update_room(
            8,
            &body,
            &caller,
            UpdateRoomEvent::RoomLoaded(Some(room(8, "c", "bob")))
        ),
        UpdateRoomAction::Respond(refused("非管理员无权操作"))
    );
    assert_eq!(
        update_room(
            8,
            &body,
            &caller,
            UpdateRoomEvent::RoomLoaded(Some(room(8, "c", "alice")))
        ),
        UpdateRoomAction::SaveRoom(patch())
    );
}

#[test]
fn change_of_participants_steps() {
    let caller = "alice".to_string();
    let mine = || UpdateRoomEvent::RoomLoaded(Some(room(8, "c", "alice")));
    assert_eq!(
        update_room(8, &change(Some(&["alice"])), &caller, mine()),
        UpdateRoomAction::Respond(refused("会议更新失败, 与会人数不足"))
    );
    let body = change(Some(&["alice", "carol"]));
    assert_eq!(
        update_room(8, &body, &caller, mine()),
        UpdateRoomAction::LoadUsers { ids: names(&["alice", "carol"]) }
    );
    assert_eq!(
        update_room(8, &body, &caller, UpdateRoomEvent::UsersLoaded(None)),
        UpdateRoomAction::Respond(refused("会议更新失败，获取用户异常"))
    );
    assert_eq!(
        update_room(8, &body, &caller, UpdateRoomEvent::UsersLoaded(Some(users(&["alice"])))),
        UpdateRoomAction::Respond(refused("会议更新失败, 用户 [\"carol\"] 不存在"))
    );
    assert_eq!(
        update_room(
            8,
            &body,
            &caller,
            UpdateRoomEvent::UsersLoaded(Some(users(&["carol", "alice"])))
        ),
        UpdateRoomAction::SyncMembers { room_id: 8, user_ids: names(&["alice", "carol"]) }
    );
    assert_eq!(
        update_room(8, &change(None), &caller, UpdateRoomEvent::UsersLoaded(None)),
        UpdateRoomAction::SaveRoom(patch())
    );
    assert_eq!(
        update_room(8, &body, &caller, UpdateRoomEvent::MembersSynced(false)),
        UpdateRoomAction::Respond(refused("会议更新失败，更新与会人员异常"))
    );
    assert_eq!(
        update_room(8, &body, &caller, UpdateRoomEvent::MembersSynced(true)),
        UpdateRoomAction::SaveRoom(patch())
    );
    assert_eq!(
        update_room(8, &body, &caller, UpdateRoomEvent::RoomSaved(false)),
        UpdateRoomAction::Respond(refused("会议更新失败"))
    );
    assert_eq!(
        update_room(8, &body, &caller, UpdateRoomEvent::RoomSaved(true)),
        UpdateRoomAction::Respond(accepted("会议更新成功"))
    );
}

#[test]
fn room_copy_is_equal() {
    let r = room(1, "c", "a");
    assert_eq!(r.duplicate(), r);
    let m = room_user::Model { id: 1, user_id: "u".to_string(), room_id: 2 };
    assert_eq!(m.duplicate(), m);
}
