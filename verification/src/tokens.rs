//! Resolving a stored credential to an API token.
//!
//! A credential is either a token, used as it stands, or the `https://`
//! address of a workspace. For an address the token is scraped from a page of
//! the workspace, fetched with the session cookie that the browser holds.
//! Reading the cookie and fetching the page are left to the caller: a
//! resolution is a small state machine that says what it waits for and takes
//! the outcome as an event.

use vstd::prelude::*;
use vstd::string::*;
use crate::outside::{regex_group, regex_group_text, url_host, url_host_text};
use crate::text::{starts_with, text_of};

verus! {

/// A token and, where the token was scraped, the session cookie it came with.
/// The cookie has to accompany the token on every later request.
#[derive(Debug, Clone, PartialEq, Eq)]
pub struct TokenAndCookie {
    pub token: String,
    pub d_cookie: Option<String>,
}

/// The model of a `TokenAndCookie`.
pub struct Credentials {
    pub token: Seq<char>,
    pub session_cookie: Option<Seq<char>>,
}

impl View for TokenAndCookie {
    type V = Credentials;

    open spec fn view(&self) -> Credentials {
        Credentials {
            token: self.token@,
            session_cookie: text_of(self.d_cookie),
        }
    }
}

/// Why the browser's cookie stores gave no cookie.
#[derive(Debug, Clone, Copy, PartialEq, Eq)]
pub enum CookieError {
    /// No store holds a cookie of that domain and name.
    CookieNotFound,
    /// The stores could not be read at all.
    CookieStoreUnavailable,
}

/// Why a credential did not resolve.
#[derive(Debug, Clone, Copy, PartialEq, Eq)]
pub enum ResolveError {
    /// The session cookie could not be read.
    Cookie(CookieError),
    /// The credential is no URL with a host.
    InvalidUrl,
    /// The workspace page could not be fetched.
    Http,
    /// The page holds no token.
    TokenNotFound,
}

impl CookieError {
    /// What the error says.
    pub open spec fn message_text(self) -> Seq<char> {
        match self {
            CookieError::CookieNotFound => "cookie not found"@,
            CookieError::CookieStoreUnavailable => "cannot read the browser's cookies"@,
        }
    }

    /// Writes the error out for the user.
    pub fn message(&self) -> (text: String)
        ensures
            text@ == self.message_text(),
    {
        match self {
            CookieError::CookieNotFound => String::from_str("cookie not found"),
            CookieError::CookieStoreUnavailable => String::from_str(
                "cannot read the browser's cookies",
            ),
        }
    }
}

impl ResolveError {
    /// What the error says.
    pub open spec fn message_text(self) -> Seq<char> {
        match self {
            ResolveError::Cookie(error) => error.message_text(),
            ResolveError::InvalidUrl => "empty host"@,
            ResolveError::Http => "cannot fetch the workspace page"@,
            ResolveError::TokenNotFound => "No token in the scraped page"@,
        }
    }

    /// Writes the error out for the user.
    pub fn message(&self) -> (text: String)
        ensures
            text@ == self.message_text(),
    {
        match self {
            ResolveError::Cookie(error) => error.message(),
            ResolveError::InvalidUrl => String::from_str("empty host"),
            ResolveError::Http => String::from_str("cannot fetch the workspace page"),
            ResolveError::TokenNotFound => String::from_str("No token in the scraped page"),
        }
    }
}

/// What a resolution waits for.
#[derive(Debug, PartialEq, Eq)]
pub enum ResolveRequest {
    /// The value of the cookie `name` that the browser holds for `domain`.
    ReadCookie { domain: String, name: String },
    /// The body of `url`, fetched by a client whose cookie jar was seeded with
    /// `set_cookie` as if `cookie_origin` had sent it, and which names itself
    /// `user_agent`.
    FetchPage { url: String, set_cookie: String, cookie_origin: String, user_agent: String },
}

/// The model of a `ResolveRequest`.
pub enum RequestModel {
    ReadCookie { domain: Seq<char>, name: Seq<char> },
    FetchPage {
        url: Seq<char>,
        set_cookie: Seq<char>,
        cookie_origin: Seq<char>,
        user_agent: Seq<char>,
    },
}

impl View for ResolveRequest {
    type V = RequestModel;

    open spec fn view(&self) -> RequestModel {
        match *self {
            ResolveRequest::ReadCookie { domain, name } => RequestModel::ReadCookie {
                domain: domain@,
                name: name@,
            },
            ResolveRequest::FetchPage {
                url,
                set_cookie,
                cookie_origin,
                user_agent,
            } => RequestModel::FetchPage {
                url: url@,
                set_cookie: set_cookie@,
                cookie_origin: cookie_origin@,
                user_agent: user_agent@,
            },
        }
    }
}

/// What the outside world answered.
#[derive(Debug, PartialEq, Eq)]
pub enum ResolveEvent {
    /// The cookie store gave this value.
    CookieRead(String),
    /// The cookie store gave nothing.
    CookieFailed(CookieError),
    /// The page was fetched and has this body.
    PageFetched(String),
    /// The page could not be fetched.
    PageFailed,
}

/// The model of a `ResolveEvent`.
pub enum EventModel {
    CookieRead(Seq<char>),
    CookieFailed(CookieError),
    PageFetched(Seq<char>),
    PageFailed,
}

impl View for ResolveEvent {
    type V = EventModel;

    open spec fn view(&self) -> EventModel {
        match *self {
            ResolveEvent::CookieRead(value) => EventModel::CookieRead(value@),
            ResolveEvent::CookieFailed(error) => EventModel::CookieFailed(error),
            ResolveEvent::PageFetched(body) => EventModel::PageFetched(body@),
            ResolveEvent::PageFailed => EventModel::PageFailed,
        }
    }
}

/// How far a resolution has come.
#[derive(Debug, PartialEq, Eq)]
pub enum ResolveState {
    /// The credential is the address `team_url`; the session cookie is awaited.
    AwaitingCookie { team_url: String },
    /// The cookie was read; the page at `url` is awaited.
    AwaitingPage { cookie: String, url: String },
    /// The resolution is over.
    Done(Result<TokenAndCookie, ResolveError>),
}

/// The model of a `ResolveState`.
pub enum StateModel {
    AwaitingCookie { team_url: Seq<char> },
    AwaitingPage { cookie: Seq<char>, url: Seq<char> },
    Done(Result<Credentials, ResolveError>),
}

impl View for ResolveState {
    type V = StateModel;

    open spec fn view(&self) -> StateModel {
        match *self {
            ResolveState::AwaitingCookie { team_url } => StateModel::AwaitingCookie {
                team_url: team_url@,
            },
            ResolveState::AwaitingPage { cookie, url } => StateModel::AwaitingPage {
                cookie: cookie@,
                url: url@,
            },
            ResolveState::Done(Ok(resolved)) => StateModel::Done(Ok(resolved@)),
            ResolveState::Done(Err(error)) => StateModel::Done(Err(error)),
        }
    }
}

/// The prefix that marks a credential as the address of a workspace.
pub open spec fn url_prefix() -> Seq<char> {
    "https://"@
}

/// The domain whose cookie is read.
pub open spec fn cookie_domain() -> Seq<char> {
    ".slack.com"@
}

/// The name of the session cookie.
pub open spec fn cookie_name() -> Seq<char> {
    "d"@
}

/// The pattern that finds the token in a page; its first group is the token.
pub open spec fn token_pattern() -> Seq<char> {
    "\"api_token\":\"(xo[^\"]+)\""@
}

/// The address that the cookie jar takes the session cookie to come from.
pub open spec fn cookie_origin() -> Seq<char> {
    "https://slack.com/"@
}

/// The browser that the page is asked for in the name of. Without it the page
/// comes back without a token.
pub open spec fn user_agent() -> Seq<char> {
    "Mozilla/5.0 (Macintosh; Intel Mac OS X 10_15_7) AppleWebKit/537.36 (KHTML, like Gecko) Chrome/105.0.0.0 Safari/537.36"@
}

/// Whether a credential is the address of a workspace and not a token.
pub open spec fn is_team_url(credential: Seq<char>) -> bool {
    url_prefix().is_prefix_of(credential)
}

/// The page of the workspace at `host` that holds the token.
pub open spec fn scrape_url(host: Seq<char>) -> Seq<char> {
    "https://"@ + host + "/customize/emoji"@
}

/// The line that seeds the cookie jar with the session cookie.
pub open spec fn jar_seed(cookie: Seq<char>) -> Seq<char> {
    "d="@ + cookie + "; Domain=.slack.com"@
}

/// The state in which the resolution of `credential` begins.
pub open spec fn initial_state(credential: Seq<char>) -> StateModel {
    if is_team_url(credential) {
        StateModel::AwaitingCookie { team_url: credential }
    } else {
        StateModel::Done(Ok(Credentials { token: credential, session_cookie: None }))
    }
}

/// What a resolution in `state` waits for; `None` once it is over.
pub open spec fn pending_request(state: StateModel) -> Option<RequestModel> {
    match state {
        StateModel::AwaitingCookie { .. } => Some(
            RequestModel::ReadCookie { domain: cookie_domain(), name: cookie_name() },
        ),
        StateModel::AwaitingPage { cookie, url } => Some(
            RequestModel::FetchPage {
                url,
                set_cookie: jar_seed(cookie),
                cookie_origin: cookie_origin(),
                user_agent: user_agent(),
            },
        ),
        StateModel::Done(_) => None,
    }
}

/// The state after the cookie was read for an address that gave `host`:
/// without a host the resolution fails, with one the page is next.
pub open spec fn after_cookie(host: Option<Seq<char>>, cookie: Seq<char>) -> StateModel {
    match host {
        Some(host) => StateModel::AwaitingPage { cookie, url: scrape_url(host) },
        None => StateModel::Done(Err(ResolveError::InvalidUrl)),
    }
}

/// The state after the page was fetched with `cookie` and searched for the
/// token.
pub open spec fn after_page(found: Option<Seq<char>>, cookie: Seq<char>) -> StateModel {
    match found {
        Some(token) => StateModel::Done(
            Ok(Credentials { token, session_cookie: Some(cookie) }),
        ),
        None => StateModel::Done(Err(ResolveError::TokenNotFound)),
    }
}

/// The state that follows `state` on `event`. An event that the state does
/// not wait for changes nothing.
pub open spec fn next_state(state: StateModel, event: EventModel) -> StateModel {
    match (state, event) {
        (StateModel::AwaitingCookie { team_url }, EventModel::CookieRead(cookie)) => after_cookie(
            url_host_text(team_url),
            cookie,
        ),
        (StateModel::AwaitingCookie { .. }, EventModel::CookieFailed(error)) => StateModel::Done(
            Err(ResolveError::Cookie(error)),
        ),
        (StateModel::AwaitingPage { cookie, .. }, EventModel::PageFetched(body)) => after_page(
            regex_group_text(token_pattern(), body, 1),
            cookie,
        ),
        (StateModel::AwaitingPage { .. }, EventModel::PageFailed) => StateModel::Done(
            Err(ResolveError::Http),
        ),
        _ => state,
    }
}

/// Tells an address of a workspace from a token.
pub fn is_url_credential(credential: &str) -> (is_url: bool)
    ensures
        is_url == is_team_url(credential@),
{
    starts_with(credential, "https://")
}

/// Searches a page for the token.
pub fn scrape_token(page: &str) -> (found: Option<String>)
    ensures
        text_of(found) == regex_group_text(token_pattern(), page@, 1),
{
    regex_group("\"api_token\":\"(xo[^\"]+)\"", page, 1)
}

/// Decides how a resolution goes on once the cookie is read: `host` is what
/// the address of the workspace gave.
pub fn state_after_cookie(host: Option<String>, cookie: String) -> (state: ResolveState)
    ensures
        state@ == after_cookie(text_of(host), cookie@),
{
    match host {
        Some(host) => {
            let url = String::from_str("https://").concat(host.as_str()).concat(
                "/customize/emoji",
            );
            ResolveState::AwaitingPage { cookie, url }
        },
        None => ResolveState::Done(Err(ResolveError::InvalidUrl)),
    }
}

/// Decides how a resolution ends once the page is searched: `found` is what
/// the search gave.
pub fn state_after_page(found: Option<String>, cookie: String) -> (state: ResolveState)
    ensures
        state@ == after_page(text_of(found), cookie@),
{
    match found {
        Some(token) => ResolveState::Done(Ok(TokenAndCookie { token, d_cookie: Some(cookie) })),
        None => ResolveState::Done(Err(ResolveError::TokenNotFound)),
    }
}

/// Begins the resolution of a credential. A token resolves at once, to
/// itself and without a cookie; an address waits for the session cookie.
pub fn resolve(token_or_url: &str) -> (state: ResolveState)
    ensures
        state@ == initial_state(token_or_url@),
        !is_team_url(token_or_url@) ==> state@ == StateModel::Done(
            Ok(Credentials { token: token_or_url@, session_cookie: None }),
        ),
        is_team_url(token_or_url@) ==> state@ == (StateModel::AwaitingCookie {
            team_url: token_or_url@,
        }),
{
    if is_url_credential(token_or_url) {
        ResolveState::AwaitingCookie { team_url: String::from_str(token_or_url) }
    } else {
        ResolveState::Done(
            Ok(TokenAndCookie { token: String::from_str(token_or_url), d_cookie: None }),
        )
    }
}

/// Says what a resolution waits for, or `None` once it is over.
pub fn pending(state: &ResolveState) -> (request: Option<ResolveRequest>)
    ensures
        match request {
            Some(request) => pending_request(state@) == Some(request@),
            None => pending_request(state@) is None,
        },
{
    match state {
        ResolveState::AwaitingCookie { .. } => Some(
            ResolveRequest::ReadCookie {
                domain: String::from_str(".slack.com"),
                name: String::from_str("d"),
            },
        ),
        ResolveState::AwaitingPage { cookie, url } => Some(
            ResolveRequest::FetchPage {
                url: url.clone(),
                set_cookie: String::from_str("d=").concat(cookie.as_str()).concat(
                    "; Domain=.slack.com",
                ),
                cookie_origin: String::from_str("https://slack.com/"),
                user_agent: String::from_str(
                    "Mozilla/5.0 (Macintosh; Intel Mac OS X 10_15_7) AppleWebKit/537.36 (KHTML, like Gecko) Chrome/105.0.0.0 Safari/537.36",
                ),
            },
        ),
        ResolveState::Done(_) => None,
    }
}

/// Takes a resolution one step further on what the outside world answered.
///
/// The cookie is read before the address is looked at: an address without a
/// host fails with `InvalidUrl` only after the cookie was read, and without
/// any page being asked for.
pub fn resolve_step(state: ResolveState, event: ResolveEvent) -> (next: ResolveState)
    ensures
        next@ == next_state(state@, event@),
{
    match state {
        ResolveState::AwaitingCookie { team_url } => match event {
            ResolveEvent::CookieRead(cookie) => state_after_cookie(
                url_host(team_url.as_str()),
                cookie,
            ),
            ResolveEvent::CookieFailed(error) => ResolveState::Done(
                Err(ResolveError::Cookie(error)),
            ),
            _ => ResolveState::AwaitingCookie { team_url },
        },
        ResolveState::AwaitingPage { cookie, url } => match event {
            ResolveEvent::PageFetched(body) => state_after_page(
                scrape_token(body.as_str()),
                cookie,
            ),
            ResolveEvent::PageFailed => ResolveState::Done(Err(ResolveError::Http)),
            _ => ResolveState::AwaitingPage { cookie, url },
        },
        ResolveState::Done(result) => ResolveState::Done(result),
    }
}

/// Hands out the result of a resolution that is over; `None` while it still
/// waits.
pub fn into_result(state: ResolveState) -> (result: Option<Result<TokenAndCookie, ResolveError>>)
    ensures
        match result {
            Some(Ok(resolved)) => state@ == StateModel::Done(Ok(resolved@)),
            Some(Err(error)) => state@ == StateModel::Done(Err(error)),
            None => !(state@ is Done),
        },
{
    match state {
        ResolveState::Done(result) => Some(result),
        _ => None,
    }
}

/// How many requests a resolution in `state` may still make.
pub open spec fn requests_left(state: StateModel) -> nat {
    match state {
        StateModel::AwaitingCookie { .. } => 2,
        StateModel::AwaitingPage { .. } => 1,
        StateModel::Done(_) => 0,
    }
}

/// Whether `event` is an answer to what `state` waits for.
pub open spec fn answers(state: StateModel, event: EventModel) -> bool {
    match (state, event) {
        (StateModel::AwaitingCookie { .. }, EventModel::CookieRead(_)) => true,
        (StateModel::AwaitingCookie { .. }, EventModel::CookieFailed(_)) => true,
        (StateModel::AwaitingPage { .. }, EventModel::PageFetched(_)) => true,
        (StateModel::AwaitingPage { .. }, EventModel::PageFailed) => true,
        _ => false,
    }
}

/// A credential that is no address resolves to itself, without a cookie and
/// without any request to the outside world.
pub proof fn law_token_resolves_to_itself(credential: Seq<char>)
    requires
        !is_team_url(credential),
    ensures
        initial_state(credential) == StateModel::Done(
            Ok(Credentials { token: credential, session_cookie: None }),
        ),
        pending_request(initial_state(credential)) is None,
{
}

/// For an address the session cookie is asked for first, whatever the
/// address holds: the cookie `d` of the domain `.slack.com`.
pub proof fn law_address_asks_for_the_cookie(credential: Seq<char>)
    requires
        is_team_url(credential),
    ensures
        pending_request(initial_state(credential)) == Some(
            RequestModel::ReadCookie { domain: ".slack.com"@, name: "d"@ },
        ),
{
}

/// An address without a host fails with `InvalidUrl` as soon as the cookie
/// was read, and no page is asked for; a cookie that cannot be read fails
/// the resolution before the address is looked at.
pub proof fn law_address_without_host_is_invalid(
    credential: Seq<char>,
    cookie: Seq<char>,
    error: CookieError,
)
    requires
        is_team_url(credential),
    ensures
        url_host_text(credential) is None ==> next_state(
            initial_state(credential),
            EventModel::CookieRead(cookie),
        ) == StateModel::Done(Err(ResolveError::InvalidUrl)),
        url_host_text(credential) is None ==> pending_request(
            next_state(initial_state(credential), EventModel::CookieRead(cookie)),
        ) is None,
        next_state(initial_state(credential), EventModel::CookieFailed(error)) == StateModel::Done(
            Err(ResolveError::Cookie(error)),
        ),
{
}

/// The page that is asked for is the emoji page of the host of the address,
/// and the request carries the cookie that was read.
pub proof fn law_page_request_carries_the_cookie(credential: Seq<char>, cookie: Seq<char>)
    requires
        is_team_url(credential),
    ensures
        url_host_text(credential) matches Some(host) ==> pending_request(
            next_state(initial_state(credential), EventModel::CookieRead(cookie)),
        ) == Some(
            RequestModel::FetchPage {
                url: "https://"@ + host + "/customize/emoji"@,
                set_cookie: "d="@ + cookie + "; Domain=.slack.com"@,
                cookie_origin: cookie_origin(),
                user_agent: user_agent(),
            },
        ),
{
}

/// A token that was scraped comes with the cookie that was read for it, and
/// a page without a token fails the resolution with `TokenNotFound`.
pub proof fn law_scraped_token_keeps_the_cookie(
    credential: Seq<char>,
    cookie: Seq<char>,
    body: Seq<char>,
)
    requires
        is_team_url(credential),
    ensures
        ({
            let fetched = next_state(
                next_state(initial_state(credential), EventModel::CookieRead(cookie)),
                EventModel::PageFetched(body),
            );
            &&& fetched is Done
            &&& fetched matches StateModel::Done(Ok(resolved)) ==> resolved.session_cookie == Some(
                cookie,
            ) && regex_group_text(token_pattern(), body, 1) == Some(resolved.token)
            &&& url_host_text(credential) is Some && regex_group_text(token_pattern(), body, 1)
                is None ==> fetched == StateModel::Done(Err(ResolveError::TokenNotFound))
        }),
{
}

/// Every answer takes a resolution nearer to its end, so a resolution makes
/// at most two requests; any other event changes nothing, and a resolution
/// that is over stays as it is.
pub proof fn law_resolution_ends(state: StateModel, event: EventModel)
    ensures
        answers(state, event) ==> requests_left(next_state(state, event)) < requests_left(state),
        !answers(state, event) ==> next_state(state, event) == state,
        pending_request(state) is None <==> requests_left(state) == 0,
        requests_left(state) <= 2,
{
}

} // verus!
