//! Values shared by the services and the request handlers.

use vstd::prelude::*;

verus! {

/// The store call during which a failure came up.
#[derive(Clone, Copy, Debug, PartialEq, Eq, Structural)]
pub enum Phase {
    /// Reading the participant rows of a room.
    ReadCurrent,
    /// Deleting the rows that are no longer wanted.
    Delete,
    /// Inserting the rows that are missing.
    Insert,
    /// Asking whether a room code is held by an active room.
    CodeCheck,
    /// Looking one record up by its key.
    Lookup,
}

/// Why a service call did not succeed. `E` is the store's own error, which
/// is handed on as it came.
#[derive(Clone, Debug, PartialEq, Eq)]
pub enum ServiceError<E> {
    /// The store failed during `phase`; the whole call may be tried again.
    StoreUnavailable { phase: Phase, cause: E },
    /// The store holds no such record; the text says which.
    NotFound(String),
    /// Every draw of the code generator met an active room.
    CodeSpaceExhausted,
    /// Stale participants were removed, then adding the missing ones failed:
    /// the room is left with fewer participants than it had and than are
    /// wanted.
    PartialConvergence { cause: E },
}

/// The envelope of every answer: `ret` is 0 on success and -1 on refusal,
/// `msg` tells the user what happened.
#[derive(Clone, Debug, PartialEq, Eq)]
pub struct BaseResponse {
    pub ret: i32,
    pub msg: String,
}

/// Whether `r` carries the code `ret` and the message `msg`.
pub open spec fn says(r: BaseResponse, ret: int, msg: &str) -> bool {
    r.ret == ret && r.msg@ == msg@
}

impl BaseResponse {
    /// A success with the given message.
    pub fn accepted(msg: &str) -> (r: BaseResponse)
        ensures
            r.ret == 0,
            r.msg@ == msg@,
    {
        BaseResponse { ret: 0, msg: msg.to_owned() }
    }

    /// A refusal with the given message.
    pub fn refused(msg: &str) -> (r: BaseResponse)
        ensures
            r.ret == -1,
            r.msg@ == msg@,
    {
        BaseResponse { ret: -1, msg: msg.to_owned() }
    }
}

/// What a verified login token says: who, and until when (seconds since the
/// epoch).
#[derive(Clone, Debug, PartialEq, Eq)]
pub struct AuthClaims {
    pub id: String,
    pub exp: usize,
}

/// A login token.
#[derive(Clone, Debug, PartialEq, Eq)]
pub struct AuthToken {
    pub auth_token: String,
}

/// A recommended video filter, as the model wrote it.
#[derive(Clone, Debug, PartialEq, Eq)]
pub struct Filter {
    pub filter: String,
}

/// A token that admits its bearer to one video room.
#[derive(Clone, Debug, PartialEq, Eq)]
pub struct LiveKitToken {
    pub livekit_token: String,
}

/// The handle of a running recording.
#[derive(Clone, Debug, PartialEq, Eq)]
pub struct LiveKitEgressInfo {
    pub egress_id: String,
}

/// The settings of the service: secrets, keys and the addresses of the
/// services it talks to.
#[derive(Clone, Debug, PartialEq, Eq)]
pub struct AppState {
    pub jwt_auth_secret: String,
    pub livekit_secret: String,
    pub livekit_key: String,
    pub livekit_url: String,
    pub s3_access_key: String,
    pub s3_secret: String,
    pub s3_endpoint: String,
    pub s3_bucket: String,
    pub gpt_api_key: String,
    pub gpt_base_url: String,
}

} // verus!
