use slack_status::tokens::{
    into_result, is_url_credential, pending, resolve, resolve_step, scrape_token,
    state_after_cookie, state_after_page, CookieError, ResolveError, ResolveEvent,
    ResolveRequest, ResolveState, TokenAndCookie,
};

const USER_AGENT: &str = "Mozilla/5.0 (Macintosh; Intel Mac OS X 10_15_7) AppleWebKit/537.36 (KHTML, like Gecko) Chrome/105.0.0.0 Safari/537.36";

fn literal(token: &str) -> ResolveState {
    ResolveState::Done(Ok(TokenAndCookie { token: token.to_string(), d_cookie: None }))
}

#[test]
fn token_resolves_to_itself_without_a_request() {
    let state = resolve("xoxp-1234-abcd");
    assert_eq!(pending(&state), None);
    assert_eq!(state, literal("xoxp-1234-abcd"));
    assert_eq!(
        into_result(state),
        Some(Ok(TokenAndCookie { token: "xoxp-1234-abcd".to_string(), d_cookie: None }))
    );
}

#[test]
fn only_the_https_prefix_marks_an_address() {
    assert!(is_url_credential("https://team.slack.com"));
    assert!(is_url_credential("https://"));
    assert!(!is_url_credential("http://team.slack.com"));
    assert!(!is_url_credential("HTTPS://team.slack.com"));
    assert!(!is_url_credential(" https://team.slack.com"));
    assert!(!is_url_credential("https:/"));
    assert!(!is_url_credential(""));
    assert_eq!(resolve(""), literal(""));
    assert_eq!(resolve("http://team.slack.com"), literal("http://team.slack.com"));
}

#[test]
fn address_asks_for_the_session_cookie_first() {
    let state = resolve("https://team.slack.com");
    assert_eq!(
        state,
        ResolveState::AwaitingCookie { team_url: "https://team.slack.com".to_string() }
    );
    assert_eq!(
        pending(&state),
        Some(ResolveRequest::ReadCookie { domain: ".slack.com".to_string(), name: "d".to_string() })
    );
    assert_eq!(into_result(state), None);
}

#[test]
fn address_without_host_asks_for_the_cookie_too() {
    let state = resolve("https://");
    assert_eq!(
        pending(&state),
        Some(ResolveRequest::ReadCookie { domain: ".slack.com".to_string(), name: "d".to_string() })
    );
}

#[test]
fn address_without_host_is_invalid_once_the_cookie_is_read() {
    let state = resolve_step(resolve("https://"), ResolveEvent::CookieRead("abc".to_string()));
    assert_eq!(state, ResolveState::Done(Err(ResolveError::InvalidUrl)));
    assert_eq!(pending(&state), None);
}

#[test]
fn cookie_failure_comes_before_the_address_is_looked_at() {
    let state = resolve_step(
        resolve("https://"),
        ResolveEvent::CookieFailed(CookieError::CookieStoreUnavailable),
    );
    assert_eq!(
        state,
        ResolveState::Done(Err(ResolveError::Cookie(CookieError::CookieStoreUnavailable)))
    );
}

#[test]
fn missing_cookie_fails_the_resolution() {
    let state = resolve_step(
        resolve("https://team.slack.com"),
        ResolveEvent::CookieFailed(CookieError::CookieNotFound),
    );
    assert_eq!(state, ResolveState::Done(Err(ResolveError::Cookie(CookieError::CookieNotFound))));
    assert_eq!(pending(&state), None);
}

#[test]
fn cookie_leads_to_the_emoji_page_of_the_host() {
    let state = resolve_step(
        resolve("https://team.slack.com/messages/general?x=1"),
        ResolveEvent::CookieRead("xoxd-abc%2F".to_string()),
    );
    assert_eq!(
        state,
        ResolveState::AwaitingPage {
            cookie: "xoxd-abc%2F".to_string(),
            url: "https://team.slack.com/customize/emoji".to_string(),
        }
    );
    assert_eq!(
        pending(&state),
        Some(ResolveRequest::FetchPage {
            url: "https://team.slack.com/customize/emoji".to_string(),
            set_cookie: "d=xoxd-abc%2F; Domain=.slack.com".to_string(),
            cookie_origin: "https://slack.com/".to_string(),
            user_agent: USER_AGENT.to_string(),
        })
    );
}

#[test]
fn scrape_extracts_exactly_the_token() {
    let body = "<script>var boot = {\"api_token\":\"xoxp-12345\",\"other\":1};</script>";
    assert_eq!(scrape_token(body), Some("xoxp-12345".to_string()));
}

#[test]
fn scrape_takes_the_first_token_and_stops_at_the_quote() {
    let body = "\"api_token\":\"xoxc-1-2\",\"x\":\"y\" \"api_token\":\"xoxp-other\"";
    assert_eq!(scrape_token(body), Some("xoxc-1-2".to_string()));
}

#[test]
fn scrape_wants_the_xo_prefix_and_a_closed_string() {
    assert_eq!(scrape_token("\"api_token\":\"abcd-1\""), None);
    assert_eq!(scrape_token("\"api_token\":\"xo\""), None);
    assert_eq!(scrape_token("\"api_token\":\"xoxp-1"), None);
    assert_eq!(scrape_token("\"api_token\": \"xoxp-1\""), None);
    assert_eq!(scrape_token("api_token:xoxp-1"), None);
    assert_eq!(scrape_token(""), None);
    assert_eq!(scrape_token("\"api_token\":\"xoa\""), Some("xoa".to_string()));
}

#[test]
fn scraped_token_comes_with_the_cookie() {
    let awaiting = resolve_step(
        resolve("https://team.slack.com"),
        ResolveEvent::CookieRead("cookie-value".to_string()),
    );
    let state = resolve_step(
        awaiting,
        ResolveEvent::PageFetched("... \"api_token\":\"xoxc-777\" ...".to_string()),
    );
    assert_eq!(pending(&state), None);
    assert_eq!(
        into_result(state),
        Some(Ok(TokenAndCookie {
            token: "xoxc-777".to_string(),
            d_cookie: Some("cookie-value".to_string()),
        }))
    );
}

#[test]
fn page_without_token_fails_with_token_not_found() {
    let awaiting =
        resolve_step(resolve("https://team.slack.com"), ResolveEvent::CookieRead("c".to_string()));
    let state = resolve_step(
        awaiting,
        ResolveEvent::PageFetched("<html><body>Sign in</body></html>".to_string()),
    );
    assert_eq!(state, ResolveState::Done(Err(ResolveError::TokenNotFound)));
}

#[test]
fn page_that_cannot_be_fetched_fails_with_http() {
    let awaiting =
        resolve_step(resolve("https://team.slack.com"), ResolveEvent::CookieRead("c".to_string()));
    let state = resolve_step(awaiting, ResolveEvent::PageFailed);
    assert_eq!(state, ResolveState::Done(Err(ResolveError::Http)));
}

#[test]
fn event_that_is_not_awaited_changes_nothing() {
    let state = resolve_step(
        resolve("https://team.slack.com"),
        ResolveEvent::PageFetched("\"api_token\":\"xoxc-777\"".to_string()),
    );
    assert_eq!(
        state,
        ResolveState::AwaitingCookie { team_url: "https://team.slack.com".to_string() }
    );
    let state = resolve_step(state, ResolveEvent::PageFailed);
    assert_eq!(
        state,
        ResolveState::AwaitingCookie { team_url: "https://team.slack.com".to_string() }
    );
    let awaiting = resolve_step(state, ResolveEvent::CookieRead("c".to_string()));
    let same = resolve_step(awaiting, ResolveEvent::CookieRead("other".to_string()));
    assert_eq!(
        same,
        ResolveState::AwaitingPage {
            cookie: "c".to_string(),
            url: "https://team.slack.com/customize/emoji".to_string(),
        }
    );
    let same = resolve_step(same, ResolveEvent::CookieFailed(CookieError::CookieNotFound));
    assert_eq!(
        pending(&same),
        Some(ResolveRequest::FetchPage {
            url: "https://team.slack.com/customize/emoji".to_string(),
            set_cookie: "d=c; Domain=.slack.com".to_string(),
            cookie_origin: "https://slack.com/".to_string(),
            user_agent: USER_AGENT.to_string(),
        })
    );
}

#[test]
fn finished_resolution_stays_as_it_is() {
    let done = resolve_step(resolve("xoxp-1"), ResolveEvent::CookieRead("c".to_string()));
    assert_eq!(done, literal("xoxp-1"));
    let done = resolve_step(done, ResolveEvent::PageFailed);
    assert_eq!(done, literal("xoxp-1"));
    let failed = resolve_step(
        ResolveState::Done(Err(ResolveError::Http)),
        ResolveEvent::PageFetched("\"api_token\":\"xoxc-777\"".to_string()),
    );
    assert_eq!(failed, ResolveState::Done(Err(ResolveError::Http)));
}

fn after_cookie(team_url: &str) -> ResolveState {
    resolve_step(
        ResolveState::AwaitingCookie { team_url: team_url.to_string() },
        ResolveEvent::CookieRead("c".to_string()),
    )
}

fn page_of(host: &str) -> ResolveState {
    ResolveState::AwaitingPage {
        cookie: "c".to_string(),
        url: format!("https://{}/customize/emoji", host),
    }
}

#[test]
fn host_is_read_as_the_url_crate_writes_it() {
    assert_eq!(after_cookie("https://team.slack.com"), page_of("team.slack.com"));
    assert_eq!(after_cookie("https://TEAM.Slack.COM/path"), page_of("team.slack.com"));
    assert_eq!(after_cookie("https://user:pw@team.slack.com:8443/"), page_of("team.slack.com"));
    assert_eq!(after_cookie("https://127.0.0.1/index.html"), page_of("127.0.0.1"));
    assert_eq!(after_cookie("https://[::1]/"), page_of("[::1]"));
    assert_eq!(after_cookie("ftp://rms@example.com"), page_of("example.com"));
}

#[test]
fn address_that_gives_no_host_is_invalid() {
    let invalid = ResolveState::Done(Err(ResolveError::InvalidUrl));
    assert_eq!(after_cookie("https://"), invalid);
    assert_eq!(after_cookie("https:///"), invalid);
    assert_eq!(after_cookie("https://exa mple.org/"), invalid);
    assert_eq!(after_cookie("not a url"), invalid);
    assert_eq!(after_cookie("data:text/plain,Stuff"), invalid);
    assert_eq!(after_cookie(""), invalid);
}

#[test]
fn resolve_errors_say_what_went_wrong() {
    assert_eq!(ResolveError::TokenNotFound.message(), "No token in the scraped page");
    assert_eq!(ResolveError::InvalidUrl.message(), "empty host");
    assert_eq!(ResolveError::Http.message(), "cannot fetch the workspace page");
    assert_eq!(ResolveError::Cookie(CookieError::CookieNotFound).message(), "cookie not found");
    assert_eq!(
        ResolveError::Cookie(CookieError::CookieStoreUnavailable).message(),
        "cannot read the browser's cookies"
    );
    assert_eq!(CookieError::CookieNotFound.message(), "cookie not found");
}

#[test]
fn state_after_cookie_depends_on_the_host_alone() {
    assert_eq!(
        state_after_cookie(Some("example.org".to_string()), "c1".to_string()),
        ResolveState::AwaitingPage {
            cookie: "c1".to_string(),
            url: "https://example.org/customize/emoji".to_string(),
        }
    );
    assert_eq!(
        state_after_cookie(None, "c1".to_string()),
        ResolveState::Done(Err(ResolveError::InvalidUrl))
    );
}

#[test]
fn state_after_page_depends_on_what_was_found() {
    assert_eq!(
        state_after_page(Some("xoxc-9".to_string()), "c1".to_string()),
        ResolveState::Done(Ok(TokenAndCookie {
            token: "xoxc-9".to_string(),
            d_cookie: Some("c1".to_string()),
        }))
    );
    assert_eq!(
        state_after_page(None, "c1".to_string()),
        ResolveState::Done(Err(ResolveError::TokenNotFound))
    );
}

#[test]
fn resolution_makes_at_most_two_requests() {
    let mut state = resolve("https://team.slack.com");
    let mut requests = 0;
    while let Some(request) = pending(&state) {
        requests += 1;
        let event = match request {
            ResolveRequest::ReadCookie { .. } => ResolveEvent::CookieRead("c".to_string()),
            ResolveRequest::FetchPage { .. } => {
                ResolveEvent::PageFetched("\"api_token\":\"xoxc-1\"".to_string())
            }
        };
        state = resolve_step(state, event);
    }
    assert_eq!(requests, 2);
    assert_eq!(
        into_result(state),
        Some(Ok(TokenAndCookie { token: "xoxc-1".to_string(), d_cookie: Some("c".to_string()) }))
    );
}
