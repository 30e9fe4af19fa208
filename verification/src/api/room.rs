//! Requests about rooms: booking, changing, listing, joining and
//! recording.
//!
//! Each request is served in steps. A step takes what the request holds and
//! the outcome of what was asked for last, and says what to do next: a call
//! for the caller to make, or the answer to send.

use vstd::prelude::*;
use vstd::string::StringExecFns;
use crate::common::{says, AppState, BaseResponse, LiveKitEgressInfo, LiveKitToken};
use crate::entities::room::{rooms, Model, Room};
use crate::entities::room::NewModel;
use crate::entities::room_user;
use crate::entities::user;
use crate::services::room_user::{drafts, drafts_for, RoomUserService};
use crate::entities::room_user::{members, users_of, Member};
use crate::text::{copy_names, decimal_string, decimal_text, names};

verus! {

/// The answer to a request to record.
#[derive(Clone, Debug, PartialEq, Eq)]
pub struct LiveKitEgressInfoRes {
    pub base: BaseResponse,
    pub data: Option<LiveKitEgressInfo>,
}

/// The answer to a request to join.
#[derive(Clone, Debug, PartialEq, Eq)]
pub struct RoomTokenRes {
    pub base: BaseResponse,
    pub data: Option<LiveKitToken>,
}

/// Whether `r` is the verdict on `caller` acting as the admin of the room
/// that a lookup found: a room that was not found and a caller who is not
/// its admin are refused, each with its message.
pub open spec fn admin_verdict(found: Option<Room>, caller: Seq<char>, r: Result<(), BaseResponse>) -> bool {
    match found {
        None => r matches Err(e) && says(e, -1, "找不到对应会议"),
        Some(room) => if room.admin != caller {
            r matches Err(e) && says(e, -1, "非管理员无权操作")
        } else {
            r is Ok
        },
    }
}

/// The value of a room that a lookup found, if any.
pub open spec fn found_room(found: Option<Model>) -> Option<Room> {
    match found {
        Some(room) => Some(room@),
        None => None,
    }
}

/// Decides whether `caller` may act as the admin of the room that a lookup
/// found. A room that could not be loaded counts as not found.
pub fn admin_gate(found: &Option<Model>, caller: &String) -> (r: Result<(), BaseResponse>)
    ensures
        admin_verdict(found_room(*found), caller@, r),
{
    match found {
        None => Err(BaseResponse::refused("找不到对应会议")),
        Some(room) => {
            if room.admin != *caller {
                Err(BaseResponse::refused("非管理员无权操作"))
            } else {
                Ok(())
            }
        },
    }
}

/// Where a recording is stored.
#[derive(Clone, Debug, PartialEq, Eq)]
pub struct S3Target {
    pub access_key: String,
    pub secret: String,
    pub endpoint: String,
    pub bucket: String,
    pub force_path_style: bool,
}

/// A picture format of the recorder: H.264 in landscape, by lines and
/// frames a second.
#[derive(Clone, Copy, Debug, PartialEq, Eq, Structural)]
pub enum EncodingPreset {
    Hd720At30,
    Hd720At60,
    Hd1080At30,
    Hd1080At60,
}

/// A request to the recorder to record one room into a file.
#[derive(Clone, Debug, PartialEq, Eq)]
pub struct EgressCall {
    /// The name of the video room: the number of the room, in decimal.
    pub room_name: String,
    /// The path of the file, with the recorder's placeholders.
    pub filepath: String,
    /// Where the file goes.
    pub s3: S3Target,
    /// How the participants are laid out.
    pub layout: String,
    /// The picture format.
    pub encoding: EncodingPreset,
    /// Whether only sound is recorded.
    pub audio_only: bool,
}

/// What the caller reports to a request to record or to stop recording.
#[derive(Clone, Debug, PartialEq, Eq)]
pub enum RecordEvent {
    /// The request came in.
    Begin,
    /// The lookup of the room is done.
    RoomLoaded(Option<Model>),
    /// The recorder was free and is now held by this request, or was busy.
    ClientLocked(bool),
    /// The recording started under this handle, or did not start.
    Started(Option<String>),
    /// The recording stopped, or did not.
    Stopped(bool),
}

/// What a request to record asks of the caller next.
#[derive(Clone, Debug, PartialEq, Eq)]
pub enum RecordAction {
    /// Look the room up and report `RoomLoaded`.
    LoadRoom { id: i32 },
    /// Take hold of the recorder without waiting and report `ClientLocked`.
    LockClient,
    /// Start this recording and report `Started`.
    Start(EgressCall),
    /// Send this answer.
    Respond(LiveKitEgressInfoRes),
}

/// The refusal of a request to record, with the message given.
pub open spec fn record_refused(action: RecordAction, msg: &str) -> bool {
    &&& action matches RecordAction::Respond(res)
    &&& says(res.base, -1, msg)
    &&& res.data is None
}

/// Whether `call` asks for the recording of room `room_id` as a file in the
/// bucket that `settings` names.
pub open spec fn records_room(call: EgressCall, room_id: i32, settings: AppState) -> bool {
    &&& call.room_name@ == decimal_text(room_id as int)
    &&& call.filepath@ == "{room_name}/{time}.mp4"@
    &&& call.s3.access_key@ == settings.s3_access_key@
    &&& call.s3.secret@ == settings.s3_secret@
    &&& call.s3.endpoint@ == settings.s3_endpoint@
    &&& call.s3.bucket@ == settings.s3_bucket@
    &&& call.s3.force_path_style
    &&& call.layout@ == "grid"@
    &&& call.encoding == EncodingPreset::Hd1080At30
    &&& !call.audio_only
}

fn refuse_record(msg: &str) -> (action: RecordAction)
    ensures
        record_refused(action, msg),
{
    RecordAction::Respond(LiveKitEgressInfoRes { base: BaseResponse::refused(msg), data: None })
}

/// The step of a request by `caller` to record room `room_id`: on `event`
/// it asks for `action`.
pub open spec fn record_room_step(
    room_id: i32,
    caller: &String,
    settings: &AppState,
    event: RecordEvent,
    action: RecordAction,
) -> bool {
    match event {
        RecordEvent::Begin => action == (RecordAction::LoadRoom { id: room_id }),
        RecordEvent::RoomLoaded(found) => match found_room(found) {
            Some(room) if room.admin == caller@ => action is LockClient,
            _ => action matches RecordAction::Respond(res) && admin_verdict(
                found_room(found),
                caller@,
                Err(res.base),
            ) && res.data is None,
        },
        RecordEvent::ClientLocked(true) => action matches RecordAction::Start(call)
            && records_room(call, room_id, *settings),
        RecordEvent::ClientLocked(false) => record_refused(action, "获取 egress 失败"),
        RecordEvent::Started(Some(handle)) => {
            &&& action matches RecordAction::Respond(res)
            &&& says(res.base, 0, "会议录制进行中")
            &&& res.data matches Some(info)
            &&& info.egress_id@ == handle@
        },
        RecordEvent::Started(None) | RecordEvent::Stopped(_) => record_refused(
            action,
            "录制会议失败",
        ),
    }
}

/// One step of a request by `caller` to record room `room_id`.
///
/// Only the admin of the room may record it. The recorder serves one
/// request at a time; a request that finds it busy is refused. `Stopped`
/// is no part of this request and is answered like a recording that did
/// not start.
pub fn record_room(room_id: i32, caller: &String, settings: &AppState, event: RecordEvent) -> (action:
    RecordAction)
    ensures
        record_room_step(room_id, caller, settings, event, action),
{
    match event {
        RecordEvent::Begin => RecordAction::LoadRoom { id: room_id },
        RecordEvent::RoomLoaded(found) => match admin_gate(&found, caller) {
            Err(e) => RecordAction::Respond(LiveKitEgressInfoRes { base: e, data: None }),
            Ok(_) => RecordAction::LockClient,
        },
        RecordEvent::ClientLocked(true) => RecordAction::Start(
            EgressCall {
                room_name: decimal_string(room_id),
                filepath: "{room_name}/{time}.mp4".to_owned(),
                s3: S3Target {
                    access_key: settings.s3_access_key.clone(),
                    secret: settings.s3_secret.clone(),
                    endpoint: settings.s3_endpoint.clone(),
                    bucket: settings.s3_bucket.clone(),
                    force_path_style: true,
                },
                layout: "grid".to_owned(),
                encoding: EncodingPreset::Hd1080At30,
                audio_only: false,
            },
        ),
        RecordEvent::ClientLocked(false) => refuse_record("获取 egress 失败"),
        RecordEvent::Started(Some(handle)) => RecordAction::Respond(
            LiveKitEgressInfoRes {
                base: BaseResponse::accepted("会议录制进行中"),
                data: Some(LiveKitEgressInfo { egress_id: handle }),
            },
        ),
        RecordEvent::Started(None) | RecordEvent::Stopped(_) => refuse_record("录制会议失败"),
    }
}

/// What a request to stop recording asks of the caller next.
#[derive(Clone, Debug, PartialEq, Eq)]
pub enum StopAction {
    /// Look the room up and report `RoomLoaded`.
    LoadRoom { id: i32 },
    /// Take hold of the recorder without waiting and report `ClientLocked`.
    LockClient,
    /// Stop the recording with this handle and report `Stopped`.
    Stop { egress_id: String },
    /// Send this answer.
    Respond(BaseResponse),
}

/// The step of a request by `caller` to stop the recording `egress_id` of
/// room `room_id`: on `event` it asks for `action`.
pub open spec fn stop_record_step(
    room_id: i32,
    egress_id: &String,
    caller: &String,
    event: RecordEvent,
    action: StopAction,
) -> bool {
    match event {
        RecordEvent::Begin => action == (StopAction::LoadRoom { id: room_id }),
        RecordEvent::RoomLoaded(found) => match found_room(found) {
            Some(room) if room.admin == caller@ => action is LockClient,
            _ => action matches StopAction::Respond(r) && admin_verdict(
                found_room(found),
                caller@,
                Err(r),
            ),
        },
        RecordEvent::ClientLocked(true) => action matches StopAction::Stop { egress_id: id }
            && id@ == egress_id@,
        RecordEvent::ClientLocked(false) => action matches StopAction::Respond(r) && says(
            r,
            -1,
            "获取 egress 失败",
        ),
        RecordEvent::Stopped(true) => action matches StopAction::Respond(r) && says(
            r,
            0,
            "会议录制已停止",
        ),
        RecordEvent::Stopped(false) | RecordEvent::Started(_) => action matches StopAction::Respond(
            r,
        ) && says(r, -1, "停止会议录制失败"),
    }
}

/// One step of a request by `caller` to stop the recording `egress_id` of
/// room `room_id`.
///
/// Only the admin of the room may stop it. `Started` is no part of this
/// request and is answered like a recording that did not stop.
pub fn stop_record(room_id: i32, egress_id: &String, caller: &String, event: RecordEvent) -> (action:
    StopAction)
    ensures
        stop_record_step(room_id, egress_id, caller, event, action),
{
    match event {
        RecordEvent::Begin => StopAction::LoadRoom { id: room_id },
        RecordEvent::RoomLoaded(found) => match admin_gate(&found, caller) {
            Err(e) => StopAction::Respond(e),
            Ok(_) => StopAction::LockClient,
        },
        RecordEvent::ClientLocked(true) => StopAction::Stop { egress_id: egress_id.clone() },
        RecordEvent::ClientLocked(false) => StopAction::Respond(
            BaseResponse::refused("获取 egress 失败"),
        ),
        RecordEvent::Stopped(true) => StopAction::Respond(BaseResponse::accepted("会议录制已停止")),
        RecordEvent::Stopped(false) | RecordEvent::Started(_) => StopAction::Respond(
            BaseResponse::refused("停止会议录制失败"),
        ),
    }
}

/// The rooms that a load brought, each by its value; `None` stands for a
/// room that is gone.
pub open spec fn loaded(all: Seq<Option<Model>>) -> Seq<Option<Room>> {
    all.map_values(|o: Option<Model>| found_room(o))
}

/// The test that picks the rooms with the code given.
pub open spec fn has_code(code: Seq<char>) -> spec_fn(Option<Room>) -> bool {
    |o: Option<Room>| o matches Some(room) && room.code == code
}

/// The first room of `all` that has the code given.
pub open spec fn find_room(all: Seq<Option<Room>>, code: Seq<char>) -> Option<Room> {
    let hits = all.filter(has_code(code));
    if hits.len() == 0 {
        None
    } else {
        hits[0]
    }
}

/// The place in `all` of the first room with the code given.
pub fn find_room_by_code(all: &Vec<Option<Model>>, code: &String) -> (at: Option<usize>)
    ensures
        match at {
            Some(i) => i < all.len() && find_room(loaded(all@), code@) == loaded(all@)[i as int]
                && all[i as int] is Some,
            None => find_room(loaded(all@), code@) is None,
        },
{
    let ghost view = loaded(all@);
    let ghost test = has_code(code@);
    let mut i: usize = 0;
    while i < all.len()
        invariant
            i <= all.len(),
            view == loaded(all@),
            test == has_code(code@),
            view.take(i as int).filter(test).len() == 0,
        decreases all.len() - i,
    {
        let hit = match &all[i] {
            Some(room) => room.code == *code,
            None => false,
        };
        proof {
            assert(view.take(i + 1) == view.take(i as int).push(view[i as int]));
            view.take(i as int).lemma_filter_push(view[i as int], test);
            assert(hit == test(view[i as int]));
        }
        if hit {
            proof {
                assert(view == view.take(i + 1) + view.skip(i + 1));
                Seq::filter_distributes_over_add(view.take(i + 1), view.skip(i + 1), test);
            }
            return Some(i);
        }
        i += 1;
    }
    assert(view.take(all.len() as int) == view);
    None
}

/// What the signer of the video service is asked for: a token under this
/// key and secret that names `identity` and, where `room_join` holds, lets
/// its bearer join `room`. Nothing else is granted.
#[derive(Clone, Debug, PartialEq, Eq)]
pub struct JoinRequest {
    pub key: String,
    pub secret: String,
    pub identity: String,
    pub room_join: bool,
    pub room: String,
}

/// Whether `req` asks, under the key and secret of `settings`, for a token
/// that names `caller` and lets them join `room`, named by its number.
pub open spec fn asks_to_join(
    req: JoinRequest,
    room: Room,
    caller: Seq<char>,
    settings: AppState,
) -> bool {
    &&& req.key@ == settings.livekit_key@
    &&& req.secret@ == settings.livekit_secret@
    &&& req.identity@ == caller
    &&& req.room_join
    &&& req.room@ == decimal_text(room.id as int)
}

/// The request for the token that lets `caller` join `room`.
pub fn join_request(room: &Model, caller: &String, settings: &AppState) -> (req: JoinRequest)
    ensures
        asks_to_join(req, room@, caller@, *settings),
{
    JoinRequest {
        key: settings.livekit_key.clone(),
        secret: settings.livekit_secret.clone(),
        identity: caller.clone(),
        room_join: true,
        room: decimal_string(room.id),
    }
}

/// Whether the signer refuses `req` whatever the time: the key or the
/// secret is empty, or joining is asked for without an identity or a room.
pub open spec fn unsignable(req: JoinRequest) -> bool {
    ||| req.key@.len() == 0
    ||| req.secret@.len() == 0
    ||| req.room_join && (req.identity@.len() == 0 || req.room@.len() == 0)
}

/// Signs a token for the video service with
/// `livekit_api::access_token::AccessToken`: `with_api_key`,
/// `with_identity`, `with_grants`, `to_jwt`. The token carries the time of
/// signing, which `with_api_key` reads off the clock, so nothing is
/// claimed of its text. `to_jwt` refuses an empty key or secret, and a
/// grant to join without an identity or a room.
#[verifier::external_body]
fn sign_token(req: &JoinRequest) -> (token: Option<String>)
    ensures
        req.key@.len() == 0 || req.secret@.len() == 0 ==> token is None,
        req.room_join && (req.identity@.len() == 0 || req.room@.len() == 0) ==> token is None,
{
    let grants = livekit_api::access_token::VideoGrants {
        room_join: req.room_join,
        room: req.room.clone(),
        ..Default::default()
    };
    livekit_api::access_token::AccessToken::with_api_key(&req.key, &req.secret)
        .with_identity(&req.identity)
        .with_grants(grants)
        .to_jwt()
        .ok()
}

/// Signs the token that `req` asks for. No token comes back for a request
/// that the signer refuses whatever the time; for any other, the signer
/// decides.
pub fn sign_join_token(req: &JoinRequest) -> (token: Option<String>)
    ensures
        unsignable(*req) ==> token is None,
{
    sign_token(req)
}

/// The refusal of a request to join, with the message given.
pub open spec fn token_refused(res: RoomTokenRes, msg: &str) -> bool {
    &&& says(res.base, -1, msg)
    &&& res.data is None
}

/// Whether `res` is the answer to a request to join for which signing gave
/// `token`.
pub open spec fn token_answer(token: Option<String>, res: RoomTokenRes) -> bool {
    match token {
        Some(t) => {
            &&& says(res.base, 0, "获取 room token 成功")
            &&& res.data matches Some(d)
            &&& d.livekit_token@ == t@
        },
        None => token_refused(res, "获取 room token 失败"),
    }
}

/// The answer to a request to join, from what signing the token gave.
pub fn room_token_answer(token: Option<String>) -> (res: RoomTokenRes)
    ensures
        token_answer(token, res),
{
    match token {
        Some(t) => RoomTokenRes {
            base: BaseResponse::accepted("获取 room token 成功"),
            data: Some(LiveKitToken { livekit_token: t }),
        },
        None => RoomTokenRes { base: BaseResponse::refused("获取 room token 失败"), data: None },
    }
}

/// What the caller reports to a request to join.
#[derive(Clone, Debug, PartialEq, Eq)]
pub enum TokenEvent {
    /// The request came in.
    Begin,
    /// The rooms that the user takes part in, one entry for each of their
    /// participant rows; `None` where the room of a row is gone.
    RoomsLoaded(Vec<Option<Model>>),
    /// The token that signing gave, or `None` where it gave none.
    Signed(Option<String>),
}

/// What a request to join asks of the caller next.
#[derive(Clone, Debug, PartialEq, Eq)]
pub enum TokenAction {
    /// Load the rooms that the user takes part in and report `RoomsLoaded`.
    LoadRooms { user_id: String },
    /// Have this request signed with `sign_join_token` and report `Signed`.
    Sign(JoinRequest),
    /// Send this answer.
    Respond(RoomTokenRes),
}

/// Whether `action` refuses a request to join, with the message given.
pub open spec fn join_refused(action: TokenAction, msg: &str) -> bool {
    action matches TokenAction::Respond(res) && token_refused(res, msg)
}

/// One step of a request by `caller` to join the room with the code
/// `room_code`.
///
/// The room is sought among those that the caller takes part in, so that
/// nobody joins a room they are not a participant of. A room that was
/// canceled admits nobody. For the first room with the code, a token is
/// asked for that names the caller and lets them join that room and no
/// other; the token that signing gives is handed on as it is.
pub fn get_room_token(room_code: &String, caller: &String, settings: &AppState, event: TokenEvent) -> (action:
    TokenAction)
    ensures
        match event {
            TokenEvent::Begin => action matches TokenAction::LoadRooms { user_id } && user_id@
                == caller@,
            TokenEvent::RoomsLoaded(all) => match find_room(loaded(all@), room_code@) {
                None => join_refused(action, "找不到对应会议"),
                Some(room) => if room.is_canceled {
                    join_refused(action, "会议已取消")
                } else {
                    action matches TokenAction::Sign(req) && asks_to_join(
                        req,
                        room,
                        caller@,
                        *settings,
                    )
                },
            },
            TokenEvent::Signed(token) => action matches TokenAction::Respond(res) && token_answer(
                token,
                res,
            ),
        },
{
    match event {
        TokenEvent::Begin => TokenAction::LoadRooms { user_id: caller.clone() },
        TokenEvent::RoomsLoaded(all) => {
            let found = match find_room_by_code(&all, room_code) {
                Some(i) => &all[i],
                None => &None,
            };
            match found {
                None => TokenAction::Respond(
                    RoomTokenRes { base: BaseResponse::refused("找不到对应会议"), data: None },
                ),
                Some(room) => {
                    if room.is_canceled {
                        TokenAction::Respond(
                            RoomTokenRes { base: BaseResponse::refused("会议已取消"), data: None },
                        )
                    } else {
                        TokenAction::Sign(join_request(room, caller, settings))
                    }
                },
            }
        },
        TokenEvent::Signed(token) => TokenAction::Respond(room_token_answer(token)),
    }
}

/// What the caller reports to a request for the rooms of a user.
#[derive(Clone, Debug, PartialEq, Eq)]
pub enum RoomsEvent {
    /// The request came in.
    Begin,
    /// The rooms that the user takes part in, one entry for each of their
    /// participant rows; `None` where the room of a row is gone.
    RoomsLoaded(Vec<Option<Model>>),
    /// Each room with its participant rows, or with `None` where they could
    /// not be read.
    MembersLoaded(Vec<(Model, Option<Vec<room_user::Model>>)>),
}

/// One room in the list of a user's rooms. Times are seconds since the
/// epoch.
#[derive(Clone, Debug, PartialEq, Eq)]
pub struct RoomNode {
    pub id: i32,
    pub code: String,
    pub is_canceled: bool,
    pub start_time: i64,
    pub end_time: i64,
    pub admin: String,
    pub users_ids: Vec<String>,
}

/// Mathematical value of a room in a list: the room and its users.
pub struct RoomEntry {
    pub room: Room,
    pub users: Seq<Seq<char>>,
}

impl View for RoomNode {
    type V = RoomEntry;

    open spec fn view(&self) -> RoomEntry {
        RoomEntry {
            room: Room {
                id: self.id,
                code: self.code@,
                is_canceled: self.is_canceled,
                cur_egress_id: Seq::empty(),
                record_videos: Seq::empty(),
                start_time: self.start_time,
                end_time: self.end_time,
                admin: self.admin@,
            },
            users: names(self.users_ids@),
        }
    }
}

/// The answer to a request for the rooms of a user.
#[derive(Clone, Debug, PartialEq, Eq)]
pub struct RoomListRes {
    pub base: BaseResponse,
    pub data: Option<Vec<RoomNode>>,
}

/// The rooms of a list, each by its value.
pub open spec fn entries(list: Seq<RoomNode>) -> Seq<RoomEntry> {
    list.map_values(|n: RoomNode| n@)
}

/// The test that picks the rooms that are still there.
pub open spec fn is_there() -> spec_fn(Option<Room>) -> bool {
    |o: Option<Room>| o is Some
}

/// The rooms of `all` that are still there, in order.
pub open spec fn present(all: Seq<Option<Room>>) -> Seq<Room> {
    all.filter(is_there()).map_values(|o: Option<Room>| o->0)
}

/// Rooms with their participant rows, each by its value.
pub open spec fn with_members(pairs: Seq<(Model, Option<Vec<room_user::Model>>)>) -> Seq<
    (Room, Option<Seq<Member>>),
> {
    pairs.map_values(
        |p: (Model, Option<Vec<room_user::Model>>)|
            (
                p.0@,
                match p.1 {
                    Some(rows) => Some(members(rows@)),
                    None => None,
                },
            ),
    )
}

/// The test that picks the rooms whose participants could be read.
pub open spec fn was_read() -> spec_fn((Room, Option<Seq<Member>>)) -> bool {
    |p: (Room, Option<Seq<Member>>)| p.1 is Some
}

/// The entry of a room in a list. What a list does not show of a room,
/// the handle of its recording and its recorded videos, is left empty.
pub open spec fn entry_of(p: (Room, Option<Seq<Member>>)) -> RoomEntry {
    RoomEntry {
        room: Room { cur_egress_id: Seq::empty(), record_videos: Seq::empty(), ..p.0 },
        users: users_of(p.1->0),
    }
}

/// The list of the rooms whose participants could be read, in order.
pub open spec fn listed(pairs: Seq<(Room, Option<Seq<Member>>)>) -> Seq<RoomEntry> {
    pairs.filter(was_read()).map_values(|p: (Room, Option<Seq<Member>>)| entry_of(p))
}

/// The users of some participant rows, in row order.
pub fn member_names(rows: &Vec<room_user::Model>) -> (out: Vec<String>)
    ensures
        names(out@) == users_of(members(rows@)),
{
    let mut out: Vec<String> = Vec::new();
    let mut i: usize = 0;
    while i < rows.len()
        invariant
            i <= rows.len(),
            names(out@) == users_of(members(rows@)).take(i as int),
        decreases rows.len() - i,
    {
        let ghost before = out@;
        out.push(rows[i].user_id.clone());
        proof {
            let all = users_of(members(rows@));
            assert(names(out@) == names(before).push(all[i as int]));
            assert(all.take(i + 1) == all.take(i as int).push(all[i as int]));
        }
        i += 1;
    }
    assert(users_of(members(rows@)).take(rows.len() as int) == users_of(members(rows@)));
    out
}

/// What a request for the rooms of a user asks of the caller next.
#[derive(Clone, Debug, PartialEq, Eq)]
pub enum RoomsAction {
    /// Load the rooms that the user takes part in and report `RoomsLoaded`.
    LoadRooms { user_id: String },
    /// Read the participant rows of each of these rooms and report
    /// `MembersLoaded`.
    LoadMembers { rooms: Vec<Model> },
    /// Send this answer.
    Respond(RoomListRes),
}

/// One step of a request by `caller` for the rooms they take part in.
///
/// Rooms that are gone are left out, and so are rooms whose participants
/// could not be read; the others are listed in the order of the load, each
/// with its users.
pub fn get_rooms(caller: &String, event: RoomsEvent) -> (action: RoomsAction)
    ensures
        match event {
            RoomsEvent::Begin => action matches RoomsAction::LoadRooms { user_id } && user_id@
                == caller@,
            RoomsEvent::RoomsLoaded(all) => action matches RoomsAction::LoadMembers { rooms: list }
                && rooms(list@) == present(loaded(all@)),
            RoomsEvent::MembersLoaded(pairs) => {
                &&& action matches RoomsAction::Respond(res)
                &&& says(res.base, 0, "获取 room token 成功")
                &&& res.data matches Some(list)
                &&& entries(list@) == listed(with_members(pairs@))
            },
        },
{
    match event {
        RoomsEvent::Begin => RoomsAction::LoadRooms { user_id: caller.clone() },
        RoomsEvent::RoomsLoaded(all) => {
            let ghost view = loaded(all@);
            let mut list: Vec<Model> = Vec::new();
            let mut i: usize = 0;
            while i < all.len()
                invariant
                    i <= all.len(),
                    view == loaded(all@),
                    rooms(list@) == present(view.take(i as int)),
                decreases all.len() - i,
            {
                proof {
                    let before = view.take(i as int);
                    assert(view.take(i + 1) == before.push(view[i as int]));
                    before.lemma_filter_push(view[i as int], is_there());
                    assert(present(before.push(view[i as int])) == if view[i as int] is Some {
                        present(before).push(view[i as int]->0)
                    } else {
                        present(before)
                    });
                }
                match &all[i] {
                    Some(room) => {
                        let ghost old_list = list@;
                        list.push(room.duplicate());
                        assert(rooms(list@) == rooms(old_list).push(view[i as int]->0));
                    },
                    None => {},
                }
                i += 1;
            }
            assert(view.take(all.len() as int) == view);
            RoomsAction::LoadMembers { rooms: list }
        },
        RoomsEvent::MembersLoaded(pairs) => {
            let ghost view = with_members(pairs@);
            let mut list: Vec<RoomNode> = Vec::new();
            let mut i: usize = 0;
            while i < pairs.len()
                invariant
                    i <= pairs.len(),
                    view == with_members(pairs@),
                    entries(list@) == listed(view.take(i as int)),
                decreases pairs.len() - i,
            {
                proof {
                    let before = view.take(i as int);
                    assert(view.take(i + 1) == before.push(view[i as int]));
                    before.lemma_filter_push(view[i as int], was_read());
                    assert(listed(before.push(view[i as int])) == if view[i as int].1 is Some {
                        listed(before).push(entry_of(view[i as int]))
                    } else {
                        listed(before)
                    });
                }
                match &pairs[i].1 {
                    Some(rows) => {
                        let room = &pairs[i].0;
                        let ghost old_list = list@;
                        let node = RoomNode {
                            id: room.id,
                            code: room.code.clone(),
                            is_canceled: room.is_canceled,
                            start_time: room.start_time,
                            end_time: room.end_time,
                            admin: room.admin.clone(),
                            users_ids: member_names(rows),
                        };
                        assert(node@ == entry_of(view[i as int]));
                        list.push(node);
                        assert(entries(list@) == entries(old_list).push(node@));
                    },
                    None => {},
                }
                i += 1;
            }
            assert(view.take(pairs.len() as int) == view);
            RoomsAction::Respond(
                RoomListRes { base: BaseResponse::accepted("获取 room token 成功"), data: Some(list) },
            )
        },
    }
}

/// The handles of some users, in order.
pub open spec fn handles(found: Seq<user::Model>) -> Seq<Seq<char>> {
    found.map_values(|u: user::Model| u.id@)
}

/// The test that picks the handles that are not among `found`.
pub open spec fn unknown(found: Seq<Seq<char>>) -> spec_fn(Seq<char>) -> bool {
    |u: Seq<char>| !found.contains(u)
}

/// The handles of `ids` that no user of `found` has, in order and as often
/// as they are listed.
pub open spec fn unknown_users(ids: Seq<Seq<char>>, found: Seq<Seq<char>>) -> Seq<Seq<char>> {
    ids.filter(unknown(found))
}

/// Whether one of `found` has the handle `id`.
pub fn is_known(found: &Vec<user::Model>, id: &String) -> (known: bool)
    ensures
        known == handles(found@).contains(id@),
{
    let mut i: usize = 0;
    while i < found.len()
        invariant
            i <= found.len(),
            forall|k: int| 0 <= k < i ==> handles(found@)[k] != id@,
        decreases found.len() - i,
    {
        if found[i].id == *id {
            assert(handles(found@)[i as int] == id@);
            return true;
        }
        i += 1;
    }
    false
}

/// The handles of `ids` that no user of `found` has.
pub fn users_not_found(ids: &Vec<String>, found: &Vec<user::Model>) -> (out: Vec<String>)
    ensures
        names(out@) == unknown_users(names(ids@), handles(found@)),
{
    let ghost all = names(ids@);
    let ghost test = unknown(handles(found@));
    let mut out: Vec<String> = Vec::new();
    let mut i: usize = 0;
    while i < ids.len()
        invariant
            i <= ids.len(),
            all == names(ids@),
            test == unknown(handles(found@)),
            names(out@) == all.take(i as int).filter(test),
        decreases ids.len() - i,
    {
        let known = is_known(found, &ids[i]);
        proof {
            assert(all.take(i + 1) == all.take(i as int).push(all[i as int]));
            all.take(i as int).lemma_filter_push(all[i as int], test);
        }
        if !known {
            let ghost before = out@;
            out.push(ids[i].clone());
            assert(names(out@) == names(before).push(all[i as int]));
        }
        i += 1;
    }
    assert(all.take(ids.len() as int) == all);
    out
}

/// A list of texts as the debug formatter of the standard library prints
/// it.
pub uninterp spec fn debug_text(list: Seq<Seq<char>>) -> Seq<char>;

/// Prints a list of strings with the `{:?}` format of `format!`: in square
/// brackets, each string quoted and escaped. The text depends on the
/// strings alone.
#[verifier::external_body]
fn debug_names(list: &Vec<String>) -> (text: String)
    ensures
        text@ == debug_text(names(list@)),
{
    format!("{:?}", list)
}

/// The refusal that names users who do not exist: `prefix`, then the
/// users as `listed` gives them, then the words that they do not exist.
pub fn naming_refusal(prefix: &str, listed: &str) -> (r: BaseResponse)
    ensures
        r.ret == -1,
        r.msg@ == prefix@ + listed@ + " 不存在"@,
{
    let mut msg = prefix.to_owned();
    msg.append(listed);
    msg.append(" 不存在");
    BaseResponse { ret: -1, msg }
}

/// Whether `r` is an answer with the code `ret` and the message `msg`.
pub open spec fn answers(r: Option<BaseResponse>, ret: int, msg: &str) -> bool {
    r matches Some(b) && says(b, ret, msg)
}

/// A request to book a room. Times are seconds since the epoch.
#[derive(Clone, Debug, PartialEq, Eq)]
pub struct CreateRoomReq {
    pub start_time: i64,
    pub end_time: i64,
    pub users_ids: Vec<String>,
}

/// What the caller reports to a request to book a room.
#[derive(Clone, Debug, PartialEq, Eq)]
pub enum CreateRoomEvent {
    /// The request came in.
    Begin,
    /// The users among the wanted participants that exist, or `None` where
    /// they could not be loaded.
    UsersLoaded(Option<Vec<user::Model>>),
    /// A code that no active room holds, or `None` where none was found.
    CodeDrawn(Option<String>),
    /// The room was stored under this number.
    RoomCreated { id: i32 },
    /// The participant rows were stored, or were not.
    MembersAdded(bool),
}

/// What a request to book a room asks of the caller next.
#[derive(Clone, Debug, PartialEq, Eq)]
pub enum CreateRoomAction {
    /// Load the users with these handles and report `UsersLoaded`.
    LoadUsers { ids: Vec<String> },
    /// Draw a room code and report `CodeDrawn`.
    DrawCode,
    /// Store this room and report `RoomCreated`.
    CreateRoom(NewModel),
    /// Store these participant rows in one batch and report
    /// `MembersAdded`.
    AddMembers { rows: Vec<room_user::NewModel> },
    /// Send this answer.
    Respond(BaseResponse),
}

impl CreateRoomAction {
    /// The answer that the action sends, if it sends one.
    pub open spec fn answer(self) -> Option<BaseResponse> {
        match self {
            CreateRoomAction::Respond(r) => Some(r),
            _ => None,
        }
    }
}

/// One step of a request by `caller` to book a room.
///
/// A room needs two participants at least, and each must exist. The room
/// gets a code that no active room holds, `caller` as its admin, and one
/// participant row for each handle listed.
pub fn create_room(body: &CreateRoomReq, caller: &String, event: CreateRoomEvent) -> (action:
    CreateRoomAction)
    ensures
        match event {
            CreateRoomEvent::Begin => if body.users_ids@.len() < 2 {
                answers(action.answer(), -1, "会议创建失败, 与会人数不足")
            } else {
                action matches CreateRoomAction::LoadUsers { ids } && names(ids@) == names(
                    body.users_ids@,
                )
            },
            CreateRoomEvent::UsersLoaded(None) => answers(action.answer(), -1, "会议创建失败"),
            CreateRoomEvent::UsersLoaded(Some(found)) => {
                let strangers = unknown_users(names(body.users_ids@), handles(found@));
                if strangers.len() > 0 {
                    &&& action matches CreateRoomAction::Respond(r)
                    &&& r.ret == -1
                    &&& r.msg@ == "会议创建失败, 用户 "@ + debug_text(strangers) + " 不存在"@
                } else {
                    action is DrawCode
                }
            },
            CreateRoomEvent::CodeDrawn(None) => answers(action.answer(), -1, "会议创建失败"),
            CreateRoomEvent::CodeDrawn(Some(code)) => {
                &&& action matches CreateRoomAction::CreateRoom(room)
                &&& room.code@ == code@
                &&& room.start_time == body.start_time
                &&& room.end_time == body.end_time
                &&& room.admin@ == caller@
            },
            CreateRoomEvent::RoomCreated { id } => if body.users_ids@.len() == 0 {
                answers(action.answer(), 0, "会议创建成功")
            } else {
                action matches CreateRoomAction::AddMembers { rows } && drafts(rows@) == drafts_for(
                    id,
                    names(body.users_ids@),
                )
            },
            CreateRoomEvent::MembersAdded(true) => answers(action.answer(), 0, "会议创建成功"),
            CreateRoomEvent::MembersAdded(false) => answers(action.answer(), -1, "会议创建失败"),
        },
{
    match event {
        CreateRoomEvent::Begin => {
            if body.users_ids.len() < 2 {
                CreateRoomAction::Respond(BaseResponse::refused("会议创建失败, 与会人数不足"))
            } else {
                CreateRoomAction::LoadUsers { ids: copy_names(&body.users_ids) }
            }
        },
        CreateRoomEvent::UsersLoaded(None) => CreateRoomAction::Respond(
            BaseResponse::refused("会议创建失败"),
        ),
        CreateRoomEvent::UsersLoaded(Some(found)) => {
            let strangers = users_not_found(&body.users_ids, &found);
            if strangers.len() > 0 {
                let listed = debug_names(&strangers);
                CreateRoomAction::Respond(naming_refusal("会议创建失败, 用户 ", listed.as_str()))
            } else {
                CreateRoomAction::DrawCode
            }
        },
        CreateRoomEvent::CodeDrawn(None) => CreateRoomAction::Respond(
            BaseResponse::refused("会议创建失败"),
        ),
        CreateRoomEvent::CodeDrawn(Some(code)) => CreateRoomAction::CreateRoom(
            NewModel {
                code,
                start_time: body.start_time,
                end_time: body.end_time,
                admin: caller.clone(),
            },
        ),
        CreateRoomEvent::RoomCreated { id } => {
            let rows = RoomUserService::rows_for(id, &body.users_ids);
            assert(drafts(rows@).len() == rows@.len());
            assert(drafts_for(id, names(body.users_ids@)).len() == body.users_ids@.len());
            match RoomUserService::create_room_user(rows) {
                Some(rows) => CreateRoomAction::AddMembers { rows },
                None => CreateRoomAction::Respond(BaseResponse::accepted("会议创建成功")),
            }
        },
        CreateRoomEvent::MembersAdded(true) => CreateRoomAction::Respond(
            BaseResponse::accepted("会议创建成功"),
        ),
        CreateRoomEvent::MembersAdded(false) => CreateRoomAction::Respond(
            BaseResponse::refused("会议创建失败"),
        ),
    }
}

/// A request to change a room. What is `None` stays as it is. Times are
/// seconds since the epoch.
#[derive(Clone, Debug, PartialEq, Eq)]
pub struct UpdateRoomReq {
    pub start_time: Option<i64>,
    pub end_time: Option<i64>,
    pub admin: Option<String>,
    pub is_canceled: Option<bool>,
    pub user_ids: Option<Vec<String>>,
}

/// The fields of a room row to overwrite. What is `None` stays as it is.
#[derive(Clone, Debug, PartialEq, Eq)]
pub struct RoomPatch {
    pub id: i32,
    pub start_time: Option<i64>,
    pub end_time: Option<i64>,
    pub admin: Option<String>,
    pub is_canceled: Option<bool>,
}

/// Whether `patch` overwrites in room `room_id` exactly what `body` sets.
pub open spec fn patches(patch: RoomPatch, room_id: i32, body: UpdateRoomReq) -> bool {
    &&& patch.id == room_id
    &&& patch.start_time == body.start_time
    &&& patch.end_time == body.end_time
    &&& patch.is_canceled == body.is_canceled
    &&& match (patch.admin, body.admin) {
        (Some(a), Some(b)) => a@ == b@,
        (None, None) => true,
        _ => false,
    }
}

/// What the caller reports to a request to change a room.
#[derive(Clone, Debug, PartialEq, Eq)]
pub enum UpdateRoomEvent {
    /// The request came in.
    Begin,
    /// The lookup of the room is done.
    RoomLoaded(Option<Model>),
    /// The users among the wanted participants that exist, or `None` where
    /// they could not be loaded.
    UsersLoaded(Option<Vec<user::Model>>),
    /// The participants were brought in line with the wanted ones, or could
    /// not be.
    MembersSynced(bool),
    /// The room row was overwritten, or was not.
    RoomSaved(bool),
}

/// What a request to change a room asks of the caller next.
#[derive(Clone, Debug, PartialEq, Eq)]
pub enum UpdateRoomAction {
    /// Look the room up and report `RoomLoaded`.
    LoadRoom { id: i32 },
    /// Load the users with these handles and report `UsersLoaded`.
    LoadUsers { ids: Vec<String> },
    /// Bring the participants of the room in line with these users and
    /// report `MembersSynced`.
    SyncMembers { room_id: i32, user_ids: Vec<String> },
    /// Overwrite the room row and report `RoomSaved`.
    SaveRoom(RoomPatch),
    /// Send this answer.
    Respond(BaseResponse),
}

impl UpdateRoomAction {
    /// The answer that the action sends, if it sends one.
    pub open spec fn answer(self) -> Option<BaseResponse> {
        match self {
            UpdateRoomAction::Respond(r) => Some(r),
            _ => None,
        }
    }
}

/// The patch that overwrites in room `room_id` what `body` sets.
pub fn patch_of(room_id: i32, body: &UpdateRoomReq) -> (patch: RoomPatch)
    ensures
        patches(patch, room_id, *body),
{
    RoomPatch {
        id: room_id,
        start_time: body.start_time,
        end_time: body.end_time,
        admin: match &body.admin {
            Some(a) => Some(a.clone()),
            None => None,
        },
        is_canceled: body.is_canceled,
    }
}

/// The step of a request by `caller` to change room `room_id`: on `event`
/// it asks for `action`.
pub open spec fn update_room_step(
    room_id: i32,
    body: &UpdateRoomReq,
    caller: &String,
    event: UpdateRoomEvent,
    action: UpdateRoomAction,
) -> bool {
    match event {
        UpdateRoomEvent::Begin => action == (UpdateRoomAction::LoadRoom { id: room_id }),
        UpdateRoomEvent::RoomLoaded(found) => match found_room(found) {
            Some(room) if room.admin == caller@ => match body.user_ids {
                Some(ids) => if ids@.len() < 2 {
                    answers(action.answer(), -1, "会议更新失败, 与会人数不足")
                } else {
                    action matches UpdateRoomAction::LoadUsers { ids: asked } && names(asked@)
                        == names(ids@)
                },
                None => action matches UpdateRoomAction::SaveRoom(patch) && patches(
                    patch,
                    room_id,
                    *body,
                ),
            },
            _ => action matches UpdateRoomAction::Respond(r) && admin_verdict(
                found_room(found),
                caller@,
                Err(r),
            ),
        },
        UpdateRoomEvent::UsersLoaded(found) => match body.user_ids {
            None => action matches UpdateRoomAction::SaveRoom(patch) && patches(
                patch,
                room_id,
                *body,
            ),
            Some(ids) => match found {
                None => answers(action.answer(), -1, "会议更新失败，获取用户异常"),
                Some(users) => {
                    let strangers = unknown_users(names(ids@), handles(users@));
                    if strangers.len() > 0 {
                        &&& action matches UpdateRoomAction::Respond(r)
                        &&& r.ret == -1
                        &&& r.msg@ == "会议更新失败, 用户 "@ + debug_text(strangers) + " 不存在"@
                    } else {
                        &&& action matches UpdateRoomAction::SyncMembers { room_id: room, user_ids }
                        &&& room == room_id
                        &&& names(user_ids@) == names(ids@)
                    }
                },
            },
        },
        UpdateRoomEvent::MembersSynced(true) => action matches UpdateRoomAction::SaveRoom(patch)
            && patches(patch, room_id, *body),
        UpdateRoomEvent::MembersSynced(false) => answers(
            action.answer(),
            -1,
            "会议更新失败，更新与会人员异常",
        ),
        UpdateRoomEvent::RoomSaved(true) => answers(action.answer(), 0, "会议更新成功"),
        UpdateRoomEvent::RoomSaved(false) => answers(action.answer(), -1, "会议更新失败"),
    }
}

/// One step of a request by `caller` to change room `room_id`.
///
/// Only the admin of the room may change it. Where the request lists
/// participants, there must be two at least and each must exist; the rows
/// of the room are then brought in line with the list before the room row
/// itself is written.
pub fn update_room(room_id: i32, body: &UpdateRoomReq, caller: &String, event: UpdateRoomEvent) -> (action:
    UpdateRoomAction)
    ensures
        update_room_step(room_id, body, caller, event, action),
{
    match event {
        UpdateRoomEvent::Begin => UpdateRoomAction::LoadRoom { id: room_id },
        UpdateRoomEvent::RoomLoaded(found) => match admin_gate(&found, caller) {
            Err(e) => UpdateRoomAction::Respond(e),
            Ok(_) => match &body.user_ids {
                Some(ids) => {
                    if ids.len() < 2 {
                        UpdateRoomAction::Respond(
                            BaseResponse::refused("会议更新失败, 与会人数不足"),
                        )
                    } else {
                        UpdateRoomAction::LoadUsers { ids: copy_names(ids) }
                    }
                },
                None => UpdateRoomAction::SaveRoom(patch_of(room_id, body)),
            },
        },
        UpdateRoomEvent::UsersLoaded(found) => match &body.user_ids {
            None => UpdateRoomAction::SaveRoom(patch_of(room_id, body)),
            Some(ids) => match found {
                None => UpdateRoomAction::Respond(
                    BaseResponse::refused("会议更新失败，获取用户异常"),
                ),
                Some(users) => {
                    let strangers = users_not_found(ids, &users);
                    if strangers.len() > 0 {
                        let listed = debug_names(&strangers);
                        UpdateRoomAction::Respond(
                            naming_refusal("会议更新失败, 用户 ", listed.as_str()),
                        )
                    } else {
                        UpdateRoomAction::SyncMembers { room_id, user_ids: copy_names(ids) }
                    }
                },
            },
        },
        UpdateRoomEvent::MembersSynced(true) => UpdateRoomAction::SaveRoom(patch_of(room_id, body)),
        UpdateRoomEvent::MembersSynced(false) => UpdateRoomAction::Respond(
            BaseResponse::refused("会议更新失败，更新与会人员异常"),
        ),
        UpdateRoomEvent::RoomSaved(true) => UpdateRoomAction::Respond(
            BaseResponse::accepted("会议更新成功"),
        ),
        UpdateRoomEvent::RoomSaved(false) => UpdateRoomAction::Respond(
            BaseResponse::refused("会议更新失败"),
        ),
    }
}

/// Whether `event` reports the outcome of what `action` asked for. Nothing
/// follows an answer.
pub open spec fn reports_on_change(action: UpdateRoomAction, event: UpdateRoomEvent) -> bool {
    match action {
        UpdateRoomAction::LoadRoom { .. } => event is RoomLoaded,
        UpdateRoomAction::LoadUsers { .. } => event is UsersLoaded,
        UpdateRoomAction::SyncMembers { .. } => event is MembersSynced,
        UpdateRoomAction::SaveRoom(_) => event is RoomSaved,
        UpdateRoomAction::Respond(_) => false,
    }
}

/// Whether `run` is the course of a request by `caller` to change room
/// `room_id`: it starts with `Begin`, each action is the step's answer to
/// its event, and each next event reports on the action before it.
pub open spec fn is_change_run(
    room_id: i32,
    body: &UpdateRoomReq,
    caller: &String,
    run: Seq<(UpdateRoomEvent, UpdateRoomAction)>,
) -> bool {
    &&& run.len() > 0 ==> run[0].0 is Begin
    &&& forall|i: int|
        0 <= i < run.len() ==> update_room_step(
            room_id,
            body,
            caller,
            (#[trigger] run[i]).0,
            run[i].1,
        )
    &&& forall|i: int| 0 <= i < run.len() - 1 ==> reports_on_change(run[i].1, #[trigger] run[i + 1].0)
}

/// Only the admin changes a room. In the course of a request, participants
/// are brought in line and the room row is written only after the room was
/// found and `caller` is its admin.
pub proof fn law_only_the_admin_changes_a_room(
    room_id: i32,
    body: &UpdateRoomReq,
    caller: &String,
    run: Seq<(UpdateRoomEvent, UpdateRoomAction)>,
    k: int,
)
    requires
        is_change_run(room_id, body, caller, run),
        0 <= k < run.len(),
        run[k].1 is SyncMembers || run[k].1 is SaveRoom,
    ensures
        k >= 1,
        run[1].0 matches UpdateRoomEvent::RoomLoaded(Some(room)) && room.admin@ == caller@,
{
    assert(run[0].0 is Begin);
    assert(update_room_step(room_id, body, caller, run[0].0, run[0].1));
    assert(reports_on_change(run[0].1, run[0int + 1].0));
    assert(update_room_step(room_id, body, caller, run[1].0, run[1].1));
    if k >= 2 {
        assert(reports_on_change(run[1].1, run[1int + 1].0));
    }
}

/// Whether `event` reports the outcome of what `action` asked for. Nothing
/// follows an answer.
pub open spec fn reports_on_record(action: RecordAction, event: RecordEvent) -> bool {
    match action {
        RecordAction::LoadRoom { .. } => event is RoomLoaded,
        RecordAction::LockClient => event is ClientLocked,
        RecordAction::Start(_) => event is Started,
        RecordAction::Respond(_) => false,
    }
}

/// Whether `run` is the course of a request by `caller` to record room
/// `room_id`.
pub open spec fn is_record_run(
    room_id: i32,
    caller: &String,
    settings: &AppState,
    run: Seq<(RecordEvent, RecordAction)>,
) -> bool {
    &&& run.len() > 0 ==> run[0].0 is Begin
    &&& forall|i: int|
        0 <= i < run.len() ==> record_room_step(
            room_id,
            caller,
            settings,
            (#[trigger] run[i]).0,
            run[i].1,
        )
    &&& forall|i: int| 0 <= i < run.len() - 1 ==> reports_on_record(run[i].1, #[trigger] run[i + 1].0)
}

/// Only the admin records a room. In the course of a request, the
/// recorder is taken hold of and a recording is started only after the room
/// was found and `caller` is its admin.
pub proof fn law_only_the_admin_records(
    room_id: i32,
    caller: &String,
    settings: &AppState,
    run: Seq<(RecordEvent, RecordAction)>,
    k: int,
)
    requires
        is_record_run(room_id, caller, settings, run),
        0 <= k < run.len(),
        run[k].1 is LockClient || run[k].1 is Start,
    ensures
        k >= 1,
        run[1].0 matches RecordEvent::RoomLoaded(Some(room)) && room.admin@ == caller@,
{
    assert(run[0].0 is Begin);
    assert(record_room_step(room_id, caller, settings, run[0].0, run[0].1));
    assert(reports_on_record(run[0].1, run[0int + 1].0));
    assert(record_room_step(room_id, caller, settings, run[1].0, run[1].1));
    if k >= 2 {
        assert(reports_on_record(run[1].1, run[1int + 1].0));
    }
}

/// Whether `event` reports the outcome of what `action` asked for. Nothing
/// follows an answer.
pub open spec fn reports_on_stop(action: StopAction, event: RecordEvent) -> bool {
    match action {
        StopAction::LoadRoom { .. } => event is RoomLoaded,
        StopAction::LockClient => event is ClientLocked,
        StopAction::Stop { .. } => event is Stopped,
        StopAction::Respond(_) => false,
    }
}

/// Whether `run` is the course of a request by `caller` to stop the
/// recording `egress_id` of room `room_id`.
pub open spec fn is_stop_run(
    room_id: i32,
    egress_id: &String,
    caller: &String,
    run: Seq<(RecordEvent, StopAction)>,
) -> bool {
    &&& run.len() > 0 ==> run[0].0 is Begin
    &&& forall|i: int|
        0 <= i < run.len() ==> stop_record_step(
            room_id,
            egress_id,
            caller,
            (#[trigger] run[i]).0,
            run[i].1,
        )
    &&& forall|i: int| 0 <= i < run.len() - 1 ==> reports_on_stop(run[i].1, #[trigger] run[i + 1].0)
}

/// Only the admin stops a recording. In the course of a request, the
/// recorder is taken hold of and a recording is stopped only after the room
/// was found and `caller` is its admin.
pub proof fn law_only_the_admin_stops_a_recording(
    room_id: i32,
    egress_id: &String,
    caller: &String,
    run: Seq<(RecordEvent, StopAction)>,
    k: int,
)
    requires
        is_stop_run(room_id, egress_id, caller, run),
        0 <= k < run.len(),
        run[k].1 is LockClient || run[k].1 is Stop,
    ensures
        k >= 1,
        run[1].0 matches RecordEvent::RoomLoaded(Some(room)) && room.admin@ == caller@,
{
    assert(run[0].0 is Begin);
    assert(stop_record_step(room_id, egress_id, caller, run[0].0, run[0].1));
    assert(reports_on_stop(run[0].1, run[0int + 1].0));
    assert(stop_record_step(room_id, egress_id, caller, run[1].0, run[1].1));
    if k >= 2 {
        assert(reports_on_stop(run[1].1, run[1int + 1].0));
    }
}

} // verus!
