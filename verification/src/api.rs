//! Request and response payloads of the REST surface.
//!
//! Plain data carried between the transport layer and the engine. The
//! transport layer parses and serializes these; the engine only ever sees
//! their fields as plain values.

use vstd::prelude::*;

verus! {

/// Lifecycle of an external image-generation task.
#[derive(Clone, Copy, Debug, PartialEq, Eq, Structural)]
pub enum AiTaskStatus {
    Pending,
    Generating,
    Completed,
    Failed,
}

/// The theme parameters handed to the generation pipeline.
#[derive(Debug)]
pub struct TriggerN8nTheme {
    pub palette: Vec<String>,
    pub keywords: Vec<String>,
    pub prompt_style: String,
}

/// A human drawing submission.
#[derive(Debug)]
pub struct CreateDrawingRequest {
    pub image_data: String,
    pub name: String,
    pub description: Option<String>,
    pub session_id: String,
    pub author_name: String,
}

/// The stand-in author name for a submission without one.
pub fn default_author() -> (r: String)
    ensures
        r@ == "匿名艺术家"@,
{
    "匿名艺术家".to_owned()
}

/// A random author label for an injected AI entry, drawn from a fixed list
/// of plausible names so injected entries do not stand out.
pub fn get_random_author() -> (r: String)
    ensures
        r@.len() > 0,
{
    let names = author_pool();
    let picked = crate::random::pick_index(names.len());
    let name = &names[picked];
    name.clone()
}

/// The fixed list of author labels for injected entries.
fn author_pool() -> (r: Vec<String>)
    ensures
        r@.len() == 20,
        forall|i: int| 0 <= i < r@.len() ==> (#[trigger] r@[i])@.len() > 0,
{
    proof {
        reveal_strlit("小明");
        reveal_strlit("阿强");
        reveal_strlit("花花");
        reveal_strlit("大毛");
        reveal_strlit("翠花");
        reveal_strlit("老王");
        reveal_strlit("小李");
        reveal_strlit("阿珍");
        reveal_strlit("铁柱");
        reveal_strlit("建国");
        reveal_strlit("美丽");
        reveal_strlit("胖虎");
        reveal_strlit("小新");
        reveal_strlit("大雄");
        reveal_strlit("静香");
        reveal_strlit("小红");
        reveal_strlit("阿华");
        reveal_strlit("小刚");
        reveal_strlit("丽丽");
        reveal_strlit("小芳");
    }
    let mut names: Vec<String> = Vec::new();
    names.push("小明".to_owned());
    names.push("阿强".to_owned());
    names.push("花花".to_owned());
    names.push("大毛".to_owned());
    names.push("翠花".to_owned());
    names.push("老王".to_owned());
    names.push("小李".to_owned());
    names.push("阿珍".to_owned());
    names.push("铁柱".to_owned());
    names.push("建国".to_owned());
    names.push("美丽".to_owned());
    names.push("胖虎".to_owned());
    names.push("小新".to_owned());
    names.push("大雄".to_owned());
    names.push("静香".to_owned());
    names.push("小红".to_owned());
    names.push("阿华".to_owned());
    names.push("小刚".to_owned());
    names.push("丽丽".to_owned());
    names.push("小芳".to_owned());
    names
}

/// A vote on a drawing.
#[derive(Debug)]
pub struct VoteRequest {
    pub session_id: String,
}

/// A report against a drawing.
#[derive(Debug)]
pub struct ReportRequest {
    pub session_id: String,
    pub reason: Option<String>,
}

/// A room creation request.
#[derive(Debug)]
pub struct CreateRoomRequest {
    pub theme_id: String,
}

/// A theme's display assets.
#[derive(Debug)]
pub struct ThemeAssets {
    pub background_url: String,
    pub particle_effect: Option<String>,
}

/// A theme's generation settings.
#[derive(Debug)]
pub struct AiSettings {
    pub keywords: Vec<String>,
    pub prompt_style: String,
}

/// A theme's per-room game parameters.
#[derive(Clone, Copy, Debug, PartialEq, Eq, Structural)]
pub struct GameRules {
    pub spawn_rate: i32,
    pub max_imposters: i32,
}

/// A theme as clients see it.
#[derive(Debug)]
pub struct ThemeResponse {
    pub theme_id: String,
    pub theme_name: String,
    pub assets: ThemeAssets,
    pub palette: Vec<String>,
    pub ai_settings: AiSettings,
    pub game_rules: GameRules,
}

/// A theme's room lookup response.
#[derive(Debug)]
pub struct ThemeRoomResponse {
    pub room_code: String,
    pub theme: ThemeResponse,
}

/// A login through the messaging platform's mini-program.
#[derive(Debug)]
pub struct WechatMpLoginRequest {
    pub code: String,
    pub session_id: Option<String>,
}

#[derive(Debug)]
pub struct WechatMpLoginResponse {
    pub token: String,
    pub user_id: String,
    pub is_new_user: bool,
}

/// The identity the messaging platform returns for a login code.
#[derive(Debug)]
pub struct WechatSession {
    pub openid: String,
    pub unionid: Option<String>,
}

/// A device-bound guest login.
#[derive(Debug)]
pub struct GuestLoginRequest {
    pub device_token: Option<String>,
    /// Deprecated compatibility field; ignored for identity binding.
    pub device_id: Option<String>,
    pub session_id: Option<String>,
}

#[derive(Debug)]
pub struct GuestLoginResponse {
    pub token: String,
    pub user_id: String,
    pub is_new_user: bool,
    pub is_guest: bool,
    pub device_token: String,
}

/// A development-only login.
#[derive(Debug)]
pub struct DevLoginRequest {
    pub session_id: Option<String>,
}

#[derive(Debug)]
pub struct DevLoginResponse {
    pub token: String,
    pub user_id: String,
    pub is_new_user: bool,
}

/// What a vote request answers: the new tally, the threshold in force, and
/// whether the entry fell.
#[derive(Clone, Copy, Debug, PartialEq, Eq, Structural)]
pub struct VoteResponse {
    pub vote_count: i32,
    pub threshold: i32,
    pub eliminated: bool,
}

/// What a report request answers.
#[derive(Clone, Copy, Debug, PartialEq, Eq, Structural)]
pub struct ReportResponse {
    pub report_count: i32,
    pub hidden: bool,
}

/// Starting a single-player run.
#[derive(Debug)]
pub struct StartGameRequest {
    pub session_id: String,
    pub level: i32,
    pub theme_id: Option<String>,
}

/// Catching one card of a run.
#[derive(Debug)]
pub struct CatchRequest {
    pub session_id: String,
    pub run_id: String,
    pub fish_instance_id: String,
}

/// Submitting a finished run.
#[derive(Debug)]
pub struct SubmitRequest {
    pub session_id: String,
    pub run_id: String,
}

/// Marker type of the inline image backend: images are stored as data URLs
/// in the relational store. The stored string is read and written at the
/// storage edge; `decode_image_data` does the decoding.
#[derive(Clone, Copy, Debug)]
pub struct DbDataUrlImageStore;

} // verus!
