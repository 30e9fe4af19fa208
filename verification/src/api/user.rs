//! Requests about users: signing up, logging in, changing the password,
//! leaving, and asking for a video filter.
//!
//! Each request is served in steps. A step takes what the request holds and
//! the outcome of what was asked for last, and says what to do next: a call
//! for the caller to make, or the answer to send.

use vstd::prelude::*;
use vstd::string::StringExecFns;
use crate::text::byte_len;
use crate::common::{says, AuthClaims, AuthToken, BaseResponse, Filter};
use crate::entities::user::Model;

verus! {

/// A login token is good for this many seconds: thirty days.
pub const TOKEN_LIFETIME: u64 = 2_592_000;

/// The longest password, in bytes, that can be hashed.
pub const MAX_PASSWORD_BYTES: usize = 0xFFFF_FFFF;

/// The model that recommends filters.
pub const GPT_MODEL: &'static str = "deepseek-v3-0324";

/// What the model is told before the user's wish.
pub const GPT_SYSTEM_PROMPT: &'static str = r#"
你是一个精通 css 滤镜的专家，你需要帮助用户生成期望的滤镜参数，可用的 css 滤镜及其参数范围限制如下:
{"blur":{"max":10,"min":0},"brightness":{"max":3,"min":0},"contrast":{"max":3,"min":0},"grayscale":{"max":1,"min":0},"hue-rotate":{"max":360,"min":0},"invert":{"max":1,"min":0},"opacity":{"max":1,"min":0},"saturate":{"max":3,"min":0},"sepia":{"max":1,"min":0}}
对应的 css 滤镜需要解析成规范的 json，如 css "filter: blur(10px) brightness(2) hue-rotate(180deg)" 对应的返回值为 {"blur":10,"brightness":2,"hue-rotate":180}
要求：
1. 严格按照上述滤镜名和参数范围限制，返回对应的 json 格式，禁止输出其他无关或不符合格式要求的信息
2. 如果用户输入的内容与滤镜无关，返回的json为空对象
示例：
输入1：帮我生成一个明亮的，充满怀旧感的滤镜。
输出1: {"brightness":1.2,"sepia":0.95}

输入2: 9.11 和 9.8 哪个大？
输出2: {}
解释：输入1按要求生成对应的滤镜 json，输入2内容与滤镜无关或不能用对应的滤镜参数表达，返回空对象
下面是用户的描述：
"#;

/// Whether `password` verifies against the password hash `hash`, as
/// `password_auth::verify_password` decides it.
pub uninterp spec fn password_verifies(password: Seq<char>, hash: Seq<char>) -> bool;

/// Checks a password against a stored hash with
/// `password_auth::verify_password`, which parses the hash and runs the
/// algorithm that it names; the outcome depends on the two texts alone. A
/// hash that does not parse counts as a mismatch.
#[verifier::external_body]
fn password_matches(password: &str, hash: &str) -> (ok: bool)
    ensures
        ok == password_verifies(password@, hash@),
{
    password_auth::verify_password(password, hash).is_ok()
}

/// Hashes a password with `password_auth::generate_hash`, under a salt
/// drawn at random, so the text that comes back differs from call to
/// call. What is claimed of it is that the password verifies against it:
/// the text carries the salt and the parameters, and verification hashes
/// the password again with them and compares. The call fails on a password
/// that is longer than the algorithm takes, which the bound leaves out.
#[verifier::external_body]
fn hash_password(password: &str) -> (hash: String)
    requires
        byte_len(password@) <= MAX_PASSWORD_BYTES,
    ensures
        password_verifies(password@, hash@),
{
    password_auth::generate_hash(password)
}

/// The answer to a filter request.
#[derive(Clone, Debug, PartialEq, Eq)]
pub struct GptFilterRes {
    pub base: BaseResponse,
    pub data: Option<Filter>,
}

/// A filter request: the user's wish in words.
#[derive(Clone, Debug, PartialEq, Eq)]
pub struct GptFilterReq {
    pub prompt: String,
}

/// One message of the model.
#[derive(Clone, Debug, PartialEq, Eq)]
pub struct GPTMessage {
    pub content: String,
}

/// One completion of the model.
#[derive(Clone, Debug, PartialEq, Eq)]
pub struct GPTChoice {
    pub message: GPTMessage,
}

/// What the model sent back.
#[derive(Clone, Debug, PartialEq, Eq)]
pub struct GPTResp {
    pub choices: Vec<GPTChoice>,
}

/// The answer to a login.
#[derive(Clone, Debug, PartialEq, Eq)]
pub struct UserLoginRes {
    pub base: BaseResponse,
    pub data: Option<AuthToken>,
}

/// A change of password.
#[derive(Clone, Debug, PartialEq, Eq)]
pub struct UserUpdateReq {
    pub old_password: String,
    pub new_password: String,
}

/// The verdict on a pair of handle and password: `known` says whether the
/// handle has a user, `password_ok` whether the password fits the hash.
pub open spec fn credentials_accepted(known: bool, password_ok: bool, r: Result<(), BaseResponse>) -> bool {
    if !known {
        r matches Err(e) && says(e, -1, "用户不存在")
    } else if !password_ok {
        r matches Err(e) && says(e, -1, "用户密码错误")
    } else {
        r is Ok
    }
}

/// Decides on a pair of handle and password from what is known of it.
pub fn credentials_verdict(known: bool, password_ok: bool) -> (r: Result<(), BaseResponse>)
    ensures
        credentials_accepted(known, password_ok, r),
{
    if !known {
        Err(BaseResponse::refused("用户不存在"))
    } else if !password_ok {
        Err(BaseResponse::refused("用户密码错误"))
    } else {
        Ok(())
    }
}

/// Checks `password` against the user that a lookup found, if any. A user
/// that could not be loaded counts as unknown.
pub fn verify_user(found: &Option<Model>, password: &str) -> (r: Result<(), BaseResponse>)
    ensures
        match found {
            Some(user) => credentials_accepted(true, password_verifies(password@, user.password@), r),
            None => credentials_accepted(false, false, r),
        },
{
    match found {
        Some(user) => credentials_verdict(true, password_matches(password, user.password.as_str())),
        None => credentials_verdict(false, false),
    }
}

/// What the caller reports to a login.
#[derive(Clone, Debug, PartialEq, Eq)]
pub enum LoginEvent {
    /// The request came in.
    Begin,
    /// The lookup of the user is done; `now_secs` is the current time in
    /// seconds since the epoch.
    UserLoaded { found: Option<Model>, now_secs: u64 },
    /// The token was encoded, or could not be.
    TokenEncoded(Option<String>),
}

/// What a login asks of the caller next.
#[derive(Clone, Debug, PartialEq, Eq)]
pub enum LoginAction {
    /// Look the user up and report `UserLoaded`.
    LoadUser { id: String },
    /// Encode and sign these claims and report `TokenEncoded`.
    Encode { claims: AuthClaims },
    /// Send this answer.
    Respond(UserLoginRes),
    /// Refuse the request as unauthorized: the token could not be encoded.
    Unauthorized,
}

/// One step of a login with the handle and password of `body`.
///
/// The user is looked up and the password checked against the stored hash;
/// a user who passes gets a token that names them and runs out after
/// `TOKEN_LIFETIME` seconds.
pub fn login(body: &Model, event: LoginEvent) -> (action: LoginAction)
    requires
        event matches LoginEvent::UserLoaded { now_secs, .. } ==> now_secs + TOKEN_LIFETIME
            <= usize::MAX,
    ensures
        match event {
            LoginEvent::Begin => action matches LoginAction::LoadUser { id } && id@ == body.id@,
            LoginEvent::UserLoaded { found, now_secs } => {
                let ok = found matches Some(user) && password_verifies(
                    body.password@,
                    user.password@,
                );
                if ok {
                    &&& action matches LoginAction::Encode { claims }
                    &&& claims.id@ == body.id@
                    &&& claims.exp == now_secs + TOKEN_LIFETIME
                } else {
                    &&& action matches LoginAction::Respond(res)
                    &&& credentials_accepted(found is Some, false, Err(res.base))
                    &&& res.data is None
                }
            },
            LoginEvent::TokenEncoded(Some(token)) => {
                &&& action matches LoginAction::Respond(res)
                &&& says(res.base, 0, "用户登录成功")
                &&& res.data matches Some(t)
                &&& t.auth_token@ == token@
            },
            LoginEvent::TokenEncoded(None) => action is Unauthorized,
        },
{
    match event {
        LoginEvent::Begin => LoginAction::LoadUser { id: body.id.clone() },
        LoginEvent::UserLoaded { found, now_secs } => {
            match verify_user(&found, body.password.as_str()) {
                Err(e) => LoginAction::Respond(UserLoginRes { base: e, data: None }),
                Ok(_) => LoginAction::Encode {
                    claims: AuthClaims {
                        id: body.id.clone(),
                        exp: (now_secs + TOKEN_LIFETIME) as usize,
                    },
                },
            }
        },
        LoginEvent::TokenEncoded(Some(token)) => LoginAction::Respond(
            UserLoginRes {
                base: BaseResponse::accepted("用户登录成功"),
                data: Some(AuthToken { auth_token: token }),
            },
        ),
        LoginEvent::TokenEncoded(None) => LoginAction::Unauthorized,
    }
}

/// What the caller reports to a request that writes one user.
#[derive(Clone, Debug, PartialEq, Eq)]
pub enum UserEvent {
    /// The request came in.
    Begin,
    /// The lookup of the user is done.
    UserLoaded(Option<Model>),
    /// The write went through, or did not.
    Written(bool),
}

/// What a request that writes one user asks of the caller next.
#[derive(Clone, Debug, PartialEq, Eq)]
pub enum UserAction {
    /// Look the user up and report `UserLoaded`.
    LoadUser { id: String },
    /// Insert this user and report `Written`.
    Insert(Model),
    /// Store this user's new password hash and report `Written`.
    ChangePassword(Model),
    /// Delete the user and report `Written`.
    Delete { id: String },
    /// Send this answer.
    Respond(BaseResponse),
}

/// One step of signing up the user of `body`.
///
/// A handle that is taken is refused. Else the user is stored with a
/// hash of the password, against which the password verifies. The
/// password is hashed once the handle is known to be free, and only then
/// is its length bounded.
pub fn create_user(body: &Model, event: UserEvent) -> (action: UserAction)
    requires
        event matches UserEvent::UserLoaded(None) ==> byte_len(body.password@)
            <= MAX_PASSWORD_BYTES,
    ensures
        match event {
            UserEvent::Begin => action matches UserAction::LoadUser { id } && id@ == body.id@,
            UserEvent::UserLoaded(Some(_)) => action matches UserAction::Respond(r) && says(
                r,
                -1,
                "用户已存在，创建失败",
            ),
            UserEvent::UserLoaded(None) => {
                &&& action matches UserAction::Insert(user)
                &&& user.id@ == body.id@
                &&& password_verifies(body.password@, user.password@)
            },
            UserEvent::Written(true) => action matches UserAction::Respond(r) && says(
                r,
                0,
                "用户创建成功",
            ),
            UserEvent::Written(false) => action matches UserAction::Respond(r) && says(
                r,
                -1,
                "用户创建失败",
            ),
        },
{
    match event {
        UserEvent::Begin => UserAction::LoadUser { id: body.id.clone() },
        UserEvent::UserLoaded(Some(_)) => UserAction::Respond(
            BaseResponse::refused("用户已存在，创建失败"),
        ),
        UserEvent::UserLoaded(None) => UserAction::Insert(
            Model { id: body.id.clone(), password: hash_password(body.password.as_str()) },
        ),
        UserEvent::Written(true) => UserAction::Respond(BaseResponse::accepted("用户创建成功")),
        UserEvent::Written(false) => UserAction::Respond(BaseResponse::refused("用户创建失败")),
    }
}

/// One step of deleting the user `caller`, at their own request. A lookup
/// is not part of it: `UserLoaded` is answered like `Begin`.
pub fn delete_user(caller: &String, event: UserEvent) -> (action: UserAction)
    ensures
        match event {
            UserEvent::Begin | UserEvent::UserLoaded(_) => action matches UserAction::Delete { id }
                && id@ == caller@,
            UserEvent::Written(true) => action matches UserAction::Respond(r) && says(
                r,
                0,
                "用户删除成功",
            ),
            UserEvent::Written(false) => action matches UserAction::Respond(r) && says(
                r,
                -1,
                "用户删除失败",
            ),
        },
{
    match event {
        UserEvent::Begin | UserEvent::UserLoaded(_) => UserAction::Delete { id: caller.clone() },
        UserEvent::Written(true) => UserAction::Respond(BaseResponse::accepted("用户删除成功")),
        UserEvent::Written(false) => UserAction::Respond(BaseResponse::refused("用户删除失败")),
    }
}

/// One step of changing the password of the user `caller`.
///
/// The old password is checked as in a login; where it fits, the hash of
/// the new one is stored. The new password is hashed only for a user who
/// was found, and only then is its length bounded.
pub fn update_user(body: &UserUpdateReq, caller: &String, event: UserEvent) -> (action: UserAction)
    requires
        event matches UserEvent::UserLoaded(Some(_)) ==> byte_len(body.new_password@)
            <= MAX_PASSWORD_BYTES,
    ensures
        match event {
            UserEvent::Begin => action matches UserAction::LoadUser { id } && id@ == caller@,
            UserEvent::UserLoaded(found) => {
                let ok = found matches Some(user) && password_verifies(
                    body.old_password@,
                    user.password@,
                );
                if ok {
                    &&& action matches UserAction::ChangePassword(user)
                    &&& user.id@ == caller@
                    &&& password_verifies(body.new_password@, user.password@)
                } else {
                    action matches UserAction::Respond(r) && credentials_accepted(
                        found is Some,
                        false,
                        Err(r),
                    )
                }
            },
            UserEvent::Written(true) => action matches UserAction::Respond(r) && says(
                r,
                0,
                "用户更新成功",
            ),
            UserEvent::Written(false) => action matches UserAction::Respond(r) && says(
                r,
                -1,
                "用户更新失败",
            ),
        },
{
    match event {
        UserEvent::Begin => UserAction::LoadUser { id: caller.clone() },
        UserEvent::UserLoaded(found) => match verify_user(&found, body.old_password.as_str()) {
            Err(e) => UserAction::Respond(e),
            Ok(_) => UserAction::ChangePassword(
                Model { id: caller.clone(), password: hash_password(body.new_password.as_str()) },
            ),
        },
        UserEvent::Written(true) => UserAction::Respond(BaseResponse::accepted("用户更新成功")),
        UserEvent::Written(false) => UserAction::Respond(BaseResponse::refused("用户更新失败")),
    }
}

/// A call to the model that recommends filters.
#[derive(Clone, Debug, PartialEq, Eq)]
pub struct GptCall {
    /// Where to post the call.
    pub url: String,
    /// The value of the authorization header.
    pub authorization: String,
    /// The model to ask.
    pub model: String,
    /// The instructions to the model.
    pub system: String,
    /// The user's wish.
    pub user: String,
    /// Whether the answer is to be streamed.
    pub stream: bool,
}

/// What the caller reports to a filter request.
#[derive(Clone, Debug, PartialEq, Eq)]
pub enum GptEvent {
    /// The request came in.
    Begin,
    /// The call could not be sent, or no answer came.
    Unreachable,
    /// An answer came that could not be read.
    Unreadable,
    /// The model's answer.
    Answered(GPTResp),
}

/// What a filter request asks of the caller next.
#[derive(Clone, Debug, PartialEq, Eq)]
pub enum GptAction {
    /// Post this call and report how it went.
    Ask(GptCall),
    /// Send this answer.
    Respond(GptFilterRes),
}

/// The refusal of a filter request, with the message given.
pub open spec fn filter_refused(action: GptAction, msg: &str) -> bool {
    &&& action matches GptAction::Respond(res)
    &&& says(res.base, -1, msg)
    &&& res.data is None
}

/// One step of a filter request.
///
/// The model is asked with the fixed instructions and the user's wish; the
/// first completion of its answer is handed on as the filter.
pub fn get_gpt_filter(api_key: &String, base_url: &String, body: &GptFilterReq, event: GptEvent) -> (action:
    GptAction)
    ensures
        match event {
            GptEvent::Begin => {
                &&& action matches GptAction::Ask(call)
                &&& call.url@ == base_url@
                &&& call.authorization@ == "Bearer "@ + api_key@
                &&& call.model@ == GPT_MODEL@
                &&& call.system@ == GPT_SYSTEM_PROMPT@
                &&& call.user@ == body.prompt@
                &&& !call.stream
            },
            GptEvent::Unreachable => filter_refused(action, "请求失败，请稍后再试"),
            GptEvent::Unreadable => filter_refused(action, "解析失败，请稍后再试"),
            GptEvent::Answered(resp) => if resp.choices@.len() == 0 {
                filter_refused(action, "解析失败，请稍后再试")
            } else {
                &&& action matches GptAction::Respond(res)
                &&& says(res.base, 0, "获取推荐滤镜成功")
                &&& res.data matches Some(f)
                &&& f.filter@ == resp.choices@[0].message.content@
            },
        },
{
    match event {
        GptEvent::Begin => {
            let mut authorization = "Bearer ".to_owned();
            authorization.append(api_key.as_str());
            GptAction::Ask(
                GptCall {
                    url: base_url.clone(),
                    authorization,
                    model: GPT_MODEL.to_owned(),
                    system: GPT_SYSTEM_PROMPT.to_owned(),
                    user: body.prompt.clone(),
                    stream: false,
                },
            )
        },
        GptEvent::Unreachable => GptAction::Respond(
            GptFilterRes { base: BaseResponse::refused("请求失败，请稍后再试"), data: None },
        ),
        GptEvent::Unreadable => GptAction::Respond(
            GptFilterRes { base: BaseResponse::refused("解析失败，请稍后再试"), data: None },
        ),
        GptEvent::Answered(resp) => {
            if resp.choices.len() == 0 {
                GptAction::Respond(
                    GptFilterRes { base: BaseResponse::refused("解析失败，请稍后再试"), data: None },
                )
            } else {
                GptAction::Respond(
                    GptFilterRes {
                        base: BaseResponse::accepted("获取推荐滤镜成功"),
                        data: Some(Filter { filter: resp.choices[0].message.content.clone() }),
                    },
                )
            }
        },
    }
}

} // verus!
