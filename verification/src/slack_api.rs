//! Profile calls: what to send for a status, and what a reply means.
//!
//! A call is described as plain data and sent by the caller; what came back
//! is handed to `get_status` or `set_status`, which say what it means. Each
//! operation is one call, never repeated.

use vstd::prelude::*;
use vstd::string::*;
use crate::outside::{json_string, json_string_text};
use crate::slack_api_client::{build_client, cookie_headers, Client};
use crate::text::{decimal, decimal_string, text_of};
use crate::tokens::{Credentials, TokenAndCookie};

verus! {

/// A named status from the configuration: an emoji, a text and, optionally,
/// the number of minutes after which the status expires.
#[derive(Debug, Clone, PartialEq, Eq)]
pub struct SlackStatus {
    pub emoji: String,
    pub text: String,
    pub duration: Option<u64>,
}

/// The expiration timestamp of a status set at `now` (seconds since the
/// epoch): `now` plus the duration in seconds, or 0 for a status that never
/// expires.
pub open spec fn expiration_at(now: int, duration: Option<u64>) -> int {
    match duration {
        Some(minutes) => now + minutes * 60,
        None => 0,
    }
}

/// Computes the expiration timestamp of a status set at `now`.
///
/// The sum has to fit in 64 bits; `checked_expiration` tests that.
pub fn build_expiration(now: u64, duration: Option<u64>) -> (expiration: u64)
    requires
        expiration_at(now as int, duration) <= u64::MAX,
    ensures
        duration is None ==> expiration == 0,
        duration matches Some(minutes) ==> expiration == now + minutes * 60,
{
    match duration {
        Some(minutes) => now + minutes * 60,
        None => 0,
    }
}

/// Computes the expiration timestamp of a status set at `now`, or `None`
/// when it does not fit in 64 bits.
pub fn checked_expiration(now: u64, duration: Option<u64>) -> (expiration: Option<u64>)
    ensures
        expiration_at(now as int, duration) <= u64::MAX ==> expiration == Some(
            expiration_at(now as int, duration) as u64,
        ),
        expiration_at(now as int, duration) > u64::MAX ==> expiration is None,
{
    match duration {
        Some(minutes) => match minutes.checked_mul(60) {
            Some(seconds) => match now.checked_add(seconds) {
                Some(_) => Some(build_expiration(now, duration)),
                None => None,
            },
            None => None,
        },
        None => Some(0),
    }
}

/// The profile object of a reply, as far as this crate reads it.
#[derive(Debug, Clone, PartialEq, Eq)]
pub struct UserProfile {
    pub status_text: Option<String>,
}

/// The model of a `UserProfile`.
pub struct ProfileModel {
    pub status_text: Option<Seq<char>>,
}

impl View for UserProfile {
    type V = ProfileModel;

    open spec fn view(&self) -> ProfileModel {
        ProfileModel { status_text: text_of(self.status_text) }
    }
}

/// What a profile call came back with.
#[derive(Debug, Clone, PartialEq, Eq)]
pub enum ProfileReply {
    /// No reply could be had: the request or its answer was lost or broken.
    Failed,
    /// The service refused the call and gave this error code.
    Rejected(String),
    /// The service accepted the call; its answer holds this profile object,
    /// or none.
    Answered(Option<UserProfile>),
}

/// The model of a `ProfileReply`.
pub enum ReplyModel {
    Failed,
    Rejected(Seq<char>),
    Answered(Option<ProfileModel>),
}

impl View for ProfileReply {
    type V = ReplyModel;

    open spec fn view(&self) -> ReplyModel {
        match *self {
            ProfileReply::Failed => ReplyModel::Failed,
            ProfileReply::Rejected(code) => ReplyModel::Rejected(code@),
            ProfileReply::Answered(None) => ReplyModel::Answered(None),
            ProfileReply::Answered(Some(profile)) => ReplyModel::Answered(Some(profile@)),
        }
    }
}

/// Why a profile call gave no result.
#[derive(Debug, Clone, PartialEq, Eq)]
pub enum ApiError {
    /// No reply could be had.
    Transport,
    /// The service refused the call with this error code.
    Remote(String),
    /// The service accepted the call but returned no profile object.
    MissingProfile,
}

/// The model of an `ApiError`.
pub enum ApiFault {
    Transport,
    Remote(Seq<char>),
    MissingProfile,
}

impl View for ApiError {
    type V = ApiFault;

    open spec fn view(&self) -> ApiFault {
        match *self {
            ApiError::Transport => ApiFault::Transport,
            ApiError::Remote(code) => ApiFault::Remote(code@),
            ApiError::MissingProfile => ApiFault::MissingProfile,
        }
    }
}

impl ApiError {
    /// What the error says.
    pub open spec fn message_text(self) -> Seq<char> {
        match self {
            ApiError::Transport => "cannot reach the service"@,
            ApiError::Remote(code) => "the service refused the call: "@ + code@,
            ApiError::MissingProfile => "User profile was not returned"@,
        }
    }

    /// Writes the error out for the user.
    pub fn message(&self) -> (text: String)
        ensures
            text@ == self.message_text(),
    {
        match self {
            ApiError::Transport => String::from_str("cannot reach the service"),
            ApiError::Remote(code) => String::from_str("the service refused the call: ").concat(
                code.as_str(),
            ),
            ApiError::MissingProfile => String::from_str("User profile was not returned"),
        }
    }
}

/// The profile object of a reply, or the error that a reply without one
/// stands for.
pub open spec fn profile_of(reply: ReplyModel) -> Result<ProfileModel, ApiFault> {
    match reply {
        ReplyModel::Failed => Err(ApiFault::Transport),
        ReplyModel::Rejected(code) => Err(ApiFault::Remote(code)),
        ReplyModel::Answered(None) => Err(ApiFault::MissingProfile),
        ReplyModel::Answered(Some(profile)) => Ok(profile),
    }
}

/// What reading the status gives for a reply: the status text of the
/// profile, empty where the profile has none.
pub open spec fn status_of(reply: ReplyModel) -> Result<Seq<char>, ApiFault> {
    match profile_of(reply) {
        Ok(profile) => match profile.status_text {
            Some(text) => Ok(text),
            None => Ok(Seq::empty()),
        },
        Err(fault) => Err(fault),
    }
}

/// What setting the status gives for a reply: success exactly where the
/// reply holds a profile object.
pub open spec fn acknowledged(reply: ReplyModel) -> Result<(), ApiFault> {
    match profile_of(reply) {
        Ok(_) => Ok(()),
        Err(fault) => Err(fault),
    }
}

/// Says what the reply to a profile-get call means: the status text, or why
/// there is none.
pub fn get_status(reply: ProfileReply) -> (status: Result<String, ApiError>)
    ensures
        match status {
            Ok(text) => status_of(reply@) == Ok::<Seq<char>, ApiFault>(text@),
            Err(error) => status_of(reply@) == Err::<Seq<char>, ApiFault>(error@),
        },
{
    match reply {
        ProfileReply::Failed => Err(ApiError::Transport),
        ProfileReply::Rejected(code) => Err(ApiError::Remote(code)),
        ProfileReply::Answered(None) => Err(ApiError::MissingProfile),
        ProfileReply::Answered(Some(profile)) => match profile.status_text {
            Some(text) => Ok(text),
            None => Ok(String::new()),
        },
    }
}

/// Says what the reply to a profile-set call means: that the status is set,
/// or why it is not.
pub fn set_status(reply: ProfileReply) -> (done: Result<(), ApiError>)
    ensures
        match done {
            Ok(_) => acknowledged(reply@) == Ok::<(), ApiFault>(()),
            Err(error) => acknowledged(reply@) == Err::<(), ApiFault>(error@),
        },
{
    match reply {
        ProfileReply::Failed => Err(ApiError::Transport),
        ProfileReply::Rejected(code) => Err(ApiError::Remote(code)),
        ProfileReply::Answered(None) => Err(ApiError::MissingProfile),
        ProfileReply::Answered(Some(_)) => Ok(()),
    }
}

/// A profile call, ready to be sent.
#[derive(Debug, Clone, PartialEq, Eq)]
pub struct ProfileCall {
    /// The token that authorises the call.
    pub token: String,
    /// The client to send it through.
    pub client: Client,
    /// The profile to set, as JSON; `None` for a call that reads the profile.
    pub profile: Option<String>,
}

/// The model of a `ProfileCall`.
pub struct CallModel {
    pub token: Seq<char>,
    pub headers: Seq<(Seq<char>, Seq<char>)>,
    pub profile: Option<Seq<char>>,
}

impl View for ProfileCall {
    type V = CallModel;

    open spec fn view(&self) -> CallModel {
        CallModel {
            token: self.token@,
            headers: self.client@,
            profile: text_of(self.profile),
        }
    }
}

/// The profile object that sets a status, as compact JSON.
pub open spec fn profile_json_text(emoji: Seq<char>, text: Seq<char>, expiration: nat) -> Seq<
    char,
> {
    "{\"status_emoji\":"@ + json_string_text(emoji) + ",\"status_expiration\":"@ + decimal(
        expiration,
    ) + ",\"status_text\":"@ + json_string_text(text) + "}"@
}

/// Writes the profile object that sets a status.
pub fn profile_json(emoji: &str, text: &str, expiration: u64) -> (json: String)
    ensures
        json@ == profile_json_text(emoji@, text@, expiration as nat),
{
    let emoji_json = json_string(emoji);
    let expiration_json = decimal_string(expiration);
    let text_json = json_string(text);
    String::from_str("{\"status_emoji\":").concat(emoji_json.as_str()).concat(
        ",\"status_expiration\":",
    ).concat(expiration_json.as_str()).concat(",\"status_text\":").concat(
        text_json.as_str(),
    ).concat("}")
}

/// The call that reads the profile with a resolved credential.
pub open spec fn get_call_of(resolved: Credentials) -> CallModel {
    CallModel {
        token: resolved.token,
        headers: cookie_headers(resolved.session_cookie),
        profile: None,
    }
}

/// The call that sets a status with a resolved credential.
pub open spec fn set_call_of(
    resolved: Credentials,
    emoji: Seq<char>,
    text: Seq<char>,
    expiration: nat,
) -> CallModel {
    CallModel {
        token: resolved.token,
        headers: cookie_headers(resolved.session_cookie),
        profile: Some(profile_json_text(emoji, text, expiration)),
    }
}

fn client_for(resolved: &TokenAndCookie) -> (client: Client)
    ensures
        client@ == cookie_headers(resolved@.session_cookie),
{
    match &resolved.d_cookie {
        Some(cookie) => build_client(Some(cookie.as_str())),
        None => build_client(None),
    }
}

/// Describes the call that reads the profile: it carries the token and,
/// where the credential has a session cookie, that cookie.
pub fn get_call(resolved: &TokenAndCookie) -> (call: ProfileCall)
    ensures
        call@ == get_call_of(resolved@),
{
    ProfileCall { token: resolved.token.clone(), client: client_for(resolved), profile: None }
}

/// Describes the call that sets a status: it carries the token, the session
/// cookie where the credential has one, and the profile object made of the
/// emoji, the text and the expiration timestamp.
pub fn set_call(resolved: &TokenAndCookie, emoji: &str, text: &str, expiration: u64) -> (call:
    ProfileCall)
    ensures
        call@ == set_call_of(resolved@, emoji@, text@, expiration as nat),
{
    ProfileCall {
        token: resolved.token.clone(),
        client: client_for(resolved),
        profile: Some(profile_json(emoji, text, expiration)),
    }
}

/// The session cookie of a credential goes with its token on every call: a
/// call for a scraped token carries the token and exactly one `Cookie`
/// header, which sends the cookie as `d`; a call for a plain token carries
/// the token and no header.
pub proof fn law_cookie_accompanies_the_token(
    resolved: Credentials,
    emoji: Seq<char>,
    text: Seq<char>,
    expiration: nat,
)
    ensures
        get_call_of(resolved).token == resolved.token,
        set_call_of(resolved, emoji, text, expiration).token == resolved.token,
        get_call_of(resolved).headers == set_call_of(resolved, emoji, text, expiration).headers,
        resolved.session_cookie matches Some(cookie) ==> get_call_of(resolved).headers
            == seq![("Cookie"@, "d="@ + cookie)],
        resolved.session_cookie is None ==> get_call_of(resolved).headers.len() == 0,
{
}

/// Setting a status succeeds exactly where the reply holds a profile
/// object, and reading it succeeds on the same replies; a reply that was
/// accepted but holds no profile object is `MissingProfile` for both.
pub proof fn law_success_needs_a_profile(reply: ReplyModel)
    ensures
        acknowledged(reply) is Ok <==> reply matches ReplyModel::Answered(Some(_)),
        status_of(reply) is Ok <==> acknowledged(reply) is Ok,
        reply == ReplyModel::Answered(None) ==> acknowledged(reply) == Err::<(), ApiFault>(
            ApiFault::MissingProfile,
        ) && status_of(reply) == Err::<Seq<char>, ApiFault>(ApiFault::MissingProfile),
{
}

/// A status without a duration never expires, whenever it is set; one with
/// a duration expires that many minutes after it is set.
pub proof fn law_expiration(now: int, minutes: u64)
    ensures
        expiration_at(now, None) == 0,
        expiration_at(now, Some(minutes)) == now + minutes * 60,
{
}

} // verus!
