use shared::github::{
    ApiCall, ApiResult, ApiStep, GitHubAccessTokenResponse, GitHubApiError,
    GitHubAuthenticatedUserResponse, GitHubAuthenticationHandler, GitHubClient,
    GitHubTokenManager, PendingCall, Reply, Stage, TokenStep, GITHUB_ACCESS_TOKEN_URL,
    GITHUB_JSON_MEDIA_TYPE_NAME, GITHUB_RAW_MEDIA_TYPE_NAME,
};
use shared::http::{Expect, HttpError, HttpMethod, HttpRequest, HttpResult};
use shared::key_value::{KeyValueError, KeyValueOperation};
use shared::time::{Timestamp, MAX_SECONDS};
use shared::tokens::{Token, TokenStore, Tokens};

fn at(secs: i64) -> Timestamp {
    Timestamp { secs, nanos: 0 }
}

fn token(value: &str, secs: i64) -> Token {
    Token::new("bearer".to_string(), value.to_string(), at(secs))
}

fn pair(access_expiry: i64, refresh_expiry: i64) -> Tokens {
    Tokens {
        access_token: token("ghu_old", access_expiry),
        refresh_token: token("ghr_old", refresh_expiry),
    }
}

fn bytes_of(tokens: &Tokens) -> Vec<u8> {
    match TokenStore.set_tokens(tokens) {
        Some(KeyValueOperation::Put { value, .. }) => value,
        other => panic!("unexpected operation {:?}", other),
    }
}

fn pairs(items: &[(&str, &str)]) -> Vec<(String, String)> {
    items.iter().map(|(k, v)| (k.to_string(), v.to_string())).collect()
}

fn handler() -> GitHubAuthenticationHandler {
    GitHubAuthenticationHandler::new("client-1", "secret-2", "https://app/cb")
}

fn manager() -> GitHubTokenManager {
    GitHubTokenManager::new(TokenStore, handler())
}

fn client() -> GitHubClient {
    GitHubClient::new(TokenStore, "https://api.github.com", "client-1", "secret-2", "https://app/cb")
}

fn response(expires_in: u64, refresh_expires_in: u64) -> GitHubAccessTokenResponse {
    GitHubAccessTokenResponse {
        access_token: "ghu_new".to_string(),
        token_type: "bearer".to_string(),
        scope: "".to_string(),
        expires_in,
        refresh_token: "ghr_new".to_string(),
        refresh_token_expires_in: refresh_expires_in,
    }
}

fn refresh_request() -> HttpRequest {
    HttpRequest {
        method: HttpMethod::Post,
        url: "https://github.com/login/oauth/access_token".to_string(),
        headers: pairs(&[("Accept", "application/vnd.github+json")]),
        query: pairs(&[
            ("client_id", "client-1"),
            ("client_secret", "secret-2"),
            ("grant_type", "refresh_token"),
            ("refresh_token", "ghr_old"),
        ]),
        expect: Expect::AccessTokens,
    }
}

fn user_request(authorization: &str) -> HttpRequest {
    HttpRequest {
        method: HttpMethod::Get,
        url: "https://api.github.com/user".to_string(),
        headers: pairs(&[("Authorization", authorization), ("Accept", "application/vnd.github+json")]),
        query: vec![],
        expect: Expect::User,
    }
}

fn user() -> GitHubAuthenticatedUserResponse {
    GitHubAuthenticatedUserResponse {
        login: "octocat".to_string(),
        name: "The Octocat".to_string(),
        avatar_url: "https://avatars/1".to_string(),
    }
}

fn failure(message: &str) -> HttpError {
    HttpError { message: message.to_string() }
}

#[test]
fn constants_name_the_provider() {
    assert_eq!(GITHUB_ACCESS_TOKEN_URL, "https://github.com/login/oauth/access_token");
    assert_eq!(GITHUB_JSON_MEDIA_TYPE_NAME, "application/vnd.github+json");
    assert_eq!(GITHUB_RAW_MEDIA_TYPE_NAME, "application/vnd.github.raw+json");
}

#[test]
fn code_exchange_request() {
    let request = handler().get_access_token_from_code("abc123");
    assert_eq!(
        request,
        HttpRequest {
            method: HttpMethod::Post,
            url: "https://github.com/login/oauth/access_token".to_string(),
            headers: pairs(&[("Accept", "application/vnd.github+json")]),
            query: pairs(&[
                ("client_id", "client-1"),
                ("client_secret", "secret-2"),
                ("redirect_uri", "https://app/cb"),
                ("code", "abc123"),
            ]),
            expect: Expect::AccessTokens,
        }
    );
}

#[test]
fn refresh_exchange_request() {
    assert_eq!(handler().get_access_token_from_refresh_token("ghr_old"), refresh_request());
}

#[test]
fn both_exchanges_differ_only_in_the_query() {
    let by_code = handler().get_access_token_from_code("c");
    let by_refresh = handler().get_access_token_from_refresh_token("r");
    assert_eq!(by_code.method, by_refresh.method);
    assert_eq!(by_code.url, by_refresh.url);
    assert_eq!(by_code.headers, by_refresh.headers);
    assert_eq!(by_code.expect, by_refresh.expect);
    assert_ne!(by_code.query, by_refresh.query);
}

#[test]
fn exchange_with_a_query_of_ones_own() {
    let request = handler().get_access_token(pairs(&[("a", "1")]));
    assert_eq!(request.query, pairs(&[("a", "1")]));
    assert_eq!(request.method, HttpMethod::Post);
    assert_eq!(request.url, "https://github.com/login/oauth/access_token");
}

#[test]
fn handler_clone_is_equal() {
    let h = handler();
    assert_eq!(h.clone(), h);
}

#[test]
fn tokens_from_response_count_from_receipt() {
    let now = Timestamp { secs: 1_700_000_000, nanos: 5 };
    let tokens = Tokens::from_response(response(28_800, 15_897_600), now);
    assert_eq!(
        tokens,
        Some(Tokens {
            access_token: Token::new(
                "bearer".to_string(),
                "ghu_new".to_string(),
                Timestamp { secs: 1_700_028_800, nanos: 5 }
            ),
            refresh_token: Token::new(
                "bearer".to_string(),
                "ghr_new".to_string(),
                Timestamp { secs: 1_715_897_600, nanos: 5 }
            ),
        })
    );
}

#[test]
fn tokens_from_response_with_no_lifetime_are_expired_at_once() {
    let now = at(100);
    let tokens = Tokens::from_response(response(0, 0), now).expect("in range");
    assert!(!tokens.access_token.is_valid_at(now));
    assert!(!tokens.refresh_token.is_valid_at(now));
}

#[test]
fn tokens_from_response_reject_an_expiry_out_of_range() {
    assert_eq!(Tokens::from_response(response(u64::MAX, 10), at(0)), None);
    assert_eq!(Tokens::from_response(response(10, u64::MAX), at(0)), None);
    assert_eq!(Tokens::from_response(response(1, 0), at(MAX_SECONDS)), None);
    assert!(Tokens::from_response(response(0, 0), at(MAX_SECONDS)).is_some());
}

#[test]
fn access_token_request_starts_with_a_read() {
    assert_eq!(
        manager().get_access_token(),
        KeyValueOperation::Get { key: "github_tokens".to_string() }
    );
}

#[test]
fn valid_access_token_is_returned_without_network_call() {
    let stored = pair(2_000, 3_000);
    let step = manager().on_loaded(Ok(Some(bytes_of(&stored))), at(1_000));
    let tokens = match step {
        TokenStep::Persist(KeyValueOperation::Put { key, value }, tokens) => {
            assert_eq!(key, "github_tokens");
            assert_eq!(value, bytes_of(&stored));
            tokens
        }
        other => panic!("unexpected step {:?}", other),
    };
    assert_eq!(tokens, stored);
    assert_eq!(
        manager().on_persisted(tokens, at(1_000)),
        TokenStep::Done(Some(token("ghu_old", 2_000)))
    );
}

#[test]
fn expired_access_token_is_refreshed_exactly_once() {
    let stored = pair(2_000, 3_000);
    let step = manager().on_loaded(Ok(Some(bytes_of(&stored))), at(2_000));
    let tokens = match step {
        TokenStep::Persist(_, tokens) => tokens,
        other => panic!("unexpected step {:?}", other),
    };
    assert_eq!(manager().on_persisted(tokens, at(2_000)), TokenStep::Refresh(refresh_request()));
    let answer = manager().on_refreshed(HttpResult::Success(response(100, 200)), at(2_005));
    assert_eq!(answer, Some(token("ghu_new", 2_105)));
}

#[test]
fn expired_pair_yields_no_token_and_no_network_call() {
    let stored = pair(2_000, 3_000);
    assert_eq!(manager().on_persisted(stored.clone(), at(3_000)), TokenStep::Done(None));
    assert_eq!(manager().on_persisted(stored, at(9_000)), TokenStep::Done(None));
}

#[test]
fn empty_store_yields_no_token_after_the_read() {
    assert_eq!(manager().on_loaded(Ok(None), at(0)), TokenStep::Done(None));
}

#[test]
fn failed_or_unreadable_store_yields_no_token() {
    let error = KeyValueError { message: "unavailable".to_string() };
    assert_eq!(manager().on_loaded(Err(error), at(0)), TokenStep::Done(None));
    assert_eq!(manager().on_loaded(Ok(Some(vec![9, 9, 9])), at(0)), TokenStep::Done(None));
}

#[test]
fn failed_refresh_yields_no_token() {
    assert_eq!(manager().on_refreshed(HttpResult::Failure(failure("502")), at(0)), None);
    assert_eq!(manager().on_refreshed(HttpResult::Success(response(u64::MAX, 0)), at(0)), None);
}

#[test]
fn manager_hands_the_code_to_the_handler() {
    assert_eq!(
        manager().get_access_token_from_code("abc123"),
        handler().get_access_token_from_code("abc123")
    );
    assert_eq!(
        client().get_access_token_from_code("abc123"),
        handler().get_access_token_from_code("abc123")
    );
}

#[test]
fn build_url_joins_with_one_slash() {
    let plain = client();
    assert_eq!(plain.build_url("user"), "https://api.github.com/user");
    assert_eq!(plain.build_url("/user"), "https://api.github.com/user");
    assert_eq!(plain.build_url("///repos/a/b"), "https://api.github.com/repos/a/b");
    let slashed = GitHubClient::new(TokenStore, "https://api.github.com//", "c", "s", "r");
    assert_eq!(slashed.build_url("user"), "https://api.github.com/user");
    assert_eq!(slashed.build_url("/user/"), "https://api.github.com/user/");
}

#[test]
fn build_url_of_empty_parts() {
    let empty = GitHubClient::new(TokenStore, "", "c", "s", "r");
    assert_eq!(empty.build_url(""), "/");
    assert_eq!(empty.build_url("x"), "/x");
    let only_slashes = GitHubClient::new(TokenStore, "///", "c", "s", "r");
    assert_eq!(only_slashes.build_url("//"), "/");
}

#[test]
fn authenticated_user_request() {
    let request = client().authenticated_request(&ApiCall::AuthenticatedUser, &token("ghu_old", 5));
    assert_eq!(request, user_request("bearer ghu_old"));
}

#[test]
fn file_contents_request() {
    let call = ApiCall::FileContents {
        owner: "alice".to_string(),
        repo: "films".to_string(),
        path: "history/2025.md".to_string(),
    };
    let request = client().authenticated_request(&call, &token("ghu_old", 5));
    assert_eq!(
        request,
        HttpRequest {
            method: HttpMethod::Get,
            url: "https://api.github.com/repos/alice/films/contents/history/2025.md".to_string(),
            headers: pairs(&[
                ("Authorization", "bearer ghu_old"),
                ("Accept", "application/vnd.github.raw+json"),
            ]),
            query: vec![],
            expect: Expect::Text,
        }
    );
}

#[test]
fn user_lookup_with_a_valid_token() {
    let stored = pair(2_000, 3_000);
    let c = client();
    let pending = match c.get_authenticated_user() {
        ApiStep::KeyValue(KeyValueOperation::Get { key }, pending) => {
            assert_eq!(key, "github_tokens");
            pending
        }
        other => panic!("unexpected step {:?}", other),
    };
    assert_eq!(pending, PendingCall { call: ApiCall::AuthenticatedUser, stage: Stage::Loading });
    let pending = match c.resume(pending, Reply::Stored(Ok(Some(bytes_of(&stored)))), at(1_000)) {
        ApiStep::KeyValue(KeyValueOperation::Put { value, .. }, pending) => {
            assert_eq!(value, bytes_of(&stored));
            pending
        }
        other => panic!("unexpected step {:?}", other),
    };
    assert_eq!(pending.stage, Stage::Persisting(stored));
    let pending = match c.resume(pending, Reply::Written, at(1_000)) {
        ApiStep::Http(request, pending) => {
            assert_eq!(request, user_request("bearer ghu_old"));
            pending
        }
        other => panic!("unexpected step {:?}", other),
    };
    assert_eq!(pending.stage, Stage::Responding);
    assert_eq!(
        c.resume(pending, Reply::User(HttpResult::Success(user())), at(1_001)),
        ApiStep::Done(ApiResult::User(Ok(user())))
    );
}

#[test]
fn user_lookup_with_a_refreshed_token() {
    let stored = pair(2_000, 3_000);
    let c = client();
    let pending = PendingCall { call: ApiCall::AuthenticatedUser, stage: Stage::Persisting(stored) };
    let pending = match c.resume(pending, Reply::Written, at(2_500)) {
        ApiStep::Http(request, pending) => {
            assert_eq!(request, refresh_request());
            pending
        }
        other => panic!("unexpected step {:?}", other),
    };
    assert_eq!(pending.stage, Stage::Refreshing);
    match c.resume(pending, Reply::Exchanged(HttpResult::Success(response(60, 600))), at(2_501)) {
        ApiStep::Http(request, pending) => {
            assert_eq!(request, user_request("bearer ghu_new"));
            assert_eq!(pending.stage, Stage::Responding);
        }
        other => panic!("unexpected step {:?}", other),
    }
}

#[test]
fn no_token_ends_the_call_without_a_request() {
    let c = client();
    let loading = PendingCall { call: ApiCall::AuthenticatedUser, stage: Stage::Loading };
    assert_eq!(
        c.resume(loading, Reply::Stored(Ok(None)), at(0)),
        ApiStep::Done(ApiResult::User(Err(GitHubApiError::ReAuthenticationRequired)))
    );
    let expired = PendingCall {
        call: ApiCall::AuthenticatedUser,
        stage: Stage::Persisting(pair(10, 20)),
    };
    assert_eq!(
        c.resume(expired, Reply::Written, at(20)),
        ApiStep::Done(ApiResult::User(Err(GitHubApiError::ReAuthenticationRequired)))
    );
    let refreshing = PendingCall { call: ApiCall::AuthenticatedUser, stage: Stage::Refreshing };
    assert_eq!(
        c.resume(refreshing, Reply::Exchanged(HttpResult::Failure(failure("500"))), at(0)),
        ApiStep::Done(ApiResult::User(Err(GitHubApiError::ReAuthenticationRequired)))
    );
}

#[test]
fn transport_failure_is_told_apart_from_missing_authentication() {
    let c = client();
    let responding = PendingCall { call: ApiCall::AuthenticatedUser, stage: Stage::Responding };
    assert_eq!(
        c.resume(responding, Reply::User(HttpResult::Failure(failure("503"))), at(0)),
        ApiStep::Done(ApiResult::User(Err(GitHubApiError::HttpError(failure("503")))))
    );
}

#[test]
fn file_fetch_runs_the_same_chain() {
    let c = client();
    let call = || ApiCall::FileContents {
        owner: "alice".to_string(),
        repo: "films".to_string(),
        path: "README.md".to_string(),
    };
    assert_eq!(
        c.get_file_contents("alice", "films", "README.md"),
        ApiStep::KeyValue(
            KeyValueOperation::Get { key: "github_tokens".to_string() },
            PendingCall { call: call(), stage: Stage::Loading }
        )
    );
    let loading = PendingCall { call: call(), stage: Stage::Loading };
    assert_eq!(
        c.resume(loading, Reply::Stored(Ok(None)), at(0)),
        ApiStep::Done(ApiResult::File(Err(GitHubApiError::ReAuthenticationRequired)))
    );
    let responding = PendingCall { call: call(), stage: Stage::Responding };
    assert_eq!(
        c.resume(responding, Reply::Text(HttpResult::Success("# 2025".to_string())), at(0)),
        ApiStep::Done(ApiResult::File(Ok("# 2025".to_string())))
    );
    let responding = PendingCall { call: call(), stage: Stage::Responding };
    assert_eq!(
        c.resume(responding, Reply::Text(HttpResult::Failure(failure("404"))), at(0)),
        ApiStep::Done(ApiResult::File(Err(GitHubApiError::HttpError(failure("404")))))
    );
}

#[test]
fn reply_of_another_kind_counts_as_a_failed_call() {
    let c = client();
    let loading = PendingCall { call: ApiCall::AuthenticatedUser, stage: Stage::Loading };
    assert_eq!(
        c.resume(loading, Reply::Written, at(0)),
        ApiStep::Done(ApiResult::User(Err(GitHubApiError::ReAuthenticationRequired)))
    );
    let refreshing = PendingCall { call: ApiCall::AuthenticatedUser, stage: Stage::Refreshing };
    assert_eq!(
        c.resume(refreshing, Reply::Written, at(0)),
        ApiStep::Done(ApiResult::User(Err(GitHubApiError::ReAuthenticationRequired)))
    );
    let responding = PendingCall { call: ApiCall::AuthenticatedUser, stage: Stage::Responding };
    assert_eq!(
        c.resume(responding, Reply::Text(HttpResult::Success("x".to_string())), at(0)),
        ApiStep::Done(ApiResult::User(Err(GitHubApiError::HttpError(failure("unexpected reply")))))
    );
}

#[test]
fn api_error_from_http_error() {
    assert_eq!(GitHubApiError::from(failure("x")), GitHubApiError::HttpError(failure("x")));
}

#[test]
fn http_result_mirrors_result() {
    let ok: HttpResult<u8, u8> = HttpResult::from(Ok(1));
    assert_eq!(ok, HttpResult::Success(1));
    let err: HttpResult<u8, u8> = HttpResult::from(Err(2));
    assert_eq!(err, HttpResult::Failure(2));
    assert_eq!(HttpResult::<u8, u8>::Success(3).into_result(), Ok(3));
    assert_eq!(HttpResult::<u8, u8>::Failure(4).into_result(), Err(4));
}
