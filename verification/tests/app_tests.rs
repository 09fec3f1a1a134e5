use shared::app::{
    log, render, App, Continuation, Delivery, Effect, Event, LogOperation, Model, RenderOperation,
    Request, UserInfo, ViewModel, DEMO_YEAR, EXPIRY_MESSAGE, NOT_STORED_MESSAGE,
    NO_LOGIN_URL_MESSAGE, NO_STATE_MESSAGE,
};
use shared::config::{Configuration, GitHubConfiguration};
use shared::film::{MonthOfYear, Rating, WatchedFilm};
use shared::github::{
    ApiCall, GitHubAccessTokenResponse, GitHubApiError, GitHubAuthenticatedUserResponse,
    PendingCall, Reply, Stage,
};
use shared::http::{Expect, HttpError, HttpMethod, HttpRequest, HttpResult};
use shared::key_value::KeyValueOperation;
use shared::logging::{LogEntry, LogLevel};
use shared::redirect::{redirect, RedirectOperation};
use shared::services::{Services, GITHUB_API_URL};
use shared::time::Timestamp;
use shared::tokens::{Token, TokenStore, Tokens};
use url::Url;

fn config() -> Configuration {
    Configuration {
        github: GitHubConfiguration {
            client_id: "Iv1.abc".to_string(),
            client_secret: "shh".to_string(),
            redirect_uri: "https://app/cb".to_string(),
        },
    }
}

fn model() -> Model {
    Model::new(Services::new(config()))
}

fn token(value: &str, secs: i64) -> Token {
    Token::new("bearer".to_string(), value.to_string(), Timestamp { secs, nanos: 0 })
}

fn tokens() -> Tokens {
    Tokens { access_token: token("ghu_a", 4_000_000_000), refresh_token: token("ghr_r", 5_000_000_000) }
}

fn bytes_of(tokens: &Tokens) -> Vec<u8> {
    match TokenStore.set_tokens(tokens) {
        Some(KeyValueOperation::Put { value, .. }) => value,
        other => panic!("unexpected operation {:?}", other),
    }
}

fn pairs(items: &[(&str, &str)]) -> Vec<(String, String)> {
    items.iter().map(|(k, v)| (k.to_string(), v.to_string())).collect()
}

fn plain(effect: Effect) -> Request {
    Request { effect, next: Continuation::Nothing }
}

fn user_fetch() -> Request {
    Request {
        effect: Effect::KeyValue(KeyValueOperation::Get { key: "github_tokens".to_string() }),
        next: Continuation::GitHub(PendingCall {
            call: ApiCall::AuthenticatedUser,
            stage: Stage::Loading,
        }),
    }
}

fn exchange_of(code: &str) -> Request {
    Request {
        effect: Effect::Http(HttpRequest {
            method: HttpMethod::Post,
            url: "https://github.com/login/oauth/access_token".to_string(),
            headers: pairs(&[("Accept", "application/vnd.github+json")]),
            query: pairs(&[
                ("client_id", "Iv1.abc"),
                ("client_secret", "shh"),
                ("redirect_uri", "https://app/cb"),
                ("code", code),
            ]),
            expect: Expect::AccessTokens,
        }),
        next: Continuation::GotTokensFromGitHub,
    }
}

fn login_redirect(state: &str) -> Request {
    plain(Effect::Redirect(RedirectOperation {
        url: format!(
            "https://github.com/login/oauth/authorize?client_id=Iv1.abc&redirect_uri=https://app/cb&state={}",
            state
        ),
    }))
}

fn error_log(message: &str) -> Request {
    plain(Effect::Log(LogOperation {
        entries: vec![LogEntry { level: LogLevel::Error, message: message.to_string() }],
    }))
}

fn user() -> GitHubAuthenticatedUserResponse {
    GitHubAuthenticatedUserResponse {
        login: "octocat".to_string(),
        name: "The Octocat".to_string(),
        avatar_url: "https://avatars/1".to_string(),
    }
}

fn user_info() -> UserInfo {
    UserInfo {
        login: "octocat".to_string(),
        name: "The Octocat".to_string(),
        avatar_url: "https://avatars/1".to_string(),
    }
}

fn logged_in() -> Model {
    let mut m = model();
    App.update(Event::GotGitHubUser(Ok(user())), &mut m);
    m
}

fn response(expires_in: u64) -> GitHubAccessTokenResponse {
    GitHubAccessTokenResponse {
        access_token: "ghu_new".to_string(),
        token_type: "bearer".to_string(),
        scope: "".to_string(),
        expires_in,
        refresh_token: "ghr_new".to_string(),
        refresh_token_expires_in: expires_in,
    }
}

fn count_renders(plan: &[Request]) -> usize {
    plan.iter().filter(|r| matches!(r.effect, Effect::Render(_))).count()
}

fn demo(title: &str, rating: Rating) -> WatchedFilm {
    WatchedFilm {
        title: title.to_string(),
        rating,
        year_watched: DEMO_YEAR,
        month_of_year_watched: MonthOfYear::new(1).expect("a month"),
    }
}

#[test]
fn services_are_built_from_the_configuration() {
    let services = Services::new(config());
    assert_eq!(GITHUB_API_URL, "https://api.github.com");
    assert_eq!(services.config, config());
    assert_eq!(services.logger.len(), 0);
    assert_eq!(services.github_client.build_url("user"), "https://api.github.com/user");
    assert_eq!(
        services.github_client.get_access_token_from_code("c").query,
        pairs(&[
            ("client_id", "Iv1.abc"),
            ("client_secret", "shh"),
            ("redirect_uri", "https://app/cb"),
            ("code", "c"),
        ])
    );
}

#[test]
fn new_model_shows_nothing() {
    assert_eq!(App.view(&model()), ViewModel { films: vec![], user_info: None });
}

#[test]
fn initial_load_seeds_films_and_looks_up_the_user() {
    let mut m = model();
    let plan = App.update(Event::InitialLoad, &mut m);
    assert_eq!(plan, vec![user_fetch(), render()]);
    assert_eq!(
        App.view(&m),
        ViewModel {
            films: vec![
                demo("Frankenstein", Rating::Meh),
                demo("American Psycho", Rating::VeryGood),
                demo("The Equalizer 2", Rating::Good),
                demo("The Equalizer 3", Rating::VeryGood),
            ],
            user_info: None,
        }
    );
}

#[test]
fn login_button_click_redirects_once() {
    let mut m = model();
    let plan = App.update(Event::LoginButtonClicked, &mut m);
    assert_eq!(plan.len(), 2);
    assert_eq!(plan[1], render());
    let redirects: Vec<&Request> =
        plan.iter().filter(|r| matches!(r.effect, Effect::Redirect(_))).collect();
    assert_eq!(redirects.len(), 1);
    assert_eq!(redirects[0].next, Continuation::Nothing);
    let text = match &redirects[0].effect {
        Effect::Redirect(operation) => operation.url.clone(),
        other => panic!("unexpected effect {:?}", other),
    };
    let url = Url::parse(&text).expect("well formed");
    assert_eq!(url.host_str(), Some("github.com"));
    assert_eq!(url.path(), "/login/oauth/authorize");
    let query: Vec<(String, String)> =
        url.query_pairs().map(|(k, v)| (k.into_owned(), v.into_owned())).collect();
    assert_eq!(query.len(), 3);
    assert_eq!(query[0], ("client_id".to_string(), "Iv1.abc".to_string()));
    assert_eq!(query[1], ("redirect_uri".to_string(), "https://app/cb".to_string()));
    assert_eq!(query[2].0, "state");
    assert_eq!(query[2].1.chars().count(), 16);
    assert!(query[2].1.chars().all(|c| c.is_ascii_alphanumeric()));
    assert_eq!(App.view(&m), ViewModel { films: vec![], user_info: None });
}

#[test]
fn login_with_a_given_state() {
    let mut m = model();
    let plan =
        App.update_with(Event::LoginButtonClicked, &mut m, Some("AAAAbbbb00001111".to_string()));
    assert_eq!(plan, vec![login_redirect("AAAAbbbb00001111"), render()]);
    let mut m = model();
    let plan = App.update_with(Event::RedirectToLogin, &mut m, Some("AAAAbbbb00001111".to_string()));
    assert_eq!(plan, vec![login_redirect("AAAAbbbb00001111"), render()]);
}

#[test]
fn login_without_a_state_is_logged_and_not_made() {
    let mut m = model();
    let plan = App.update_with(Event::LoginButtonClicked, &mut m, None);
    assert_eq!(plan, vec![error_log(NO_STATE_MESSAGE), render()]);
    assert_eq!(NO_STATE_MESSAGE, "no state parameter could be drawn");
    assert_eq!(NO_LOGIN_URL_MESSAGE, "the login URL could not be built");
}

#[test]
fn callback_with_code_exchanges_it() {
    let mut m = model();
    let plan = App.update(Event::CallbackReceived("https://app/cb?code=abc123".to_string()), &mut m);
    assert_eq!(plan, vec![exchange_of("abc123"), render()]);
    let code = match &plan[0].effect {
        Effect::Http(request) => {
            request.query.iter().find(|(k, _)| k == "code").map(|(_, v)| v.clone())
        }
        other => panic!("unexpected effect {:?}", other),
    };
    assert_eq!(code, Some("abc123".to_string()));
}

#[test]
fn callback_without_code_only_renders() {
    let mut m = model();
    let plan = App.update(Event::CallbackReceived("https://app/cb".to_string()), &mut m);
    assert_eq!(plan, vec![render()]);
    assert_eq!(plan[0].effect, Effect::Render(RenderOperation));
}

#[test]
fn malformed_callback_only_renders() {
    let mut m = model();
    let plan = App.update(Event::CallbackReceived("::not a url::".to_string()), &mut m);
    assert_eq!(plan, vec![render()]);
}

#[test]
fn get_tokens_from_github_with_and_without_code() {
    let mut m = model();
    assert_eq!(App.update(Event::GetTokensFromGitHub { code: None }, &mut m), vec![render()]);
    assert_eq!(
        App.update(Event::GetTokensFromGitHub { code: Some("xyz".to_string()) }, &mut m),
        vec![exchange_of("xyz"), render()]
    );
}

#[test]
fn tokens_loaded_from_the_store_are_not_written_back() {
    let mut m = model();
    let plan = App.update(Event::OnTokensLoaded { tokens: tokens(), suppress_store: true }, &mut m);
    assert_eq!(plan, vec![user_fetch(), render()]);
    let writes = plan
        .iter()
        .filter(|r| matches!(r.effect, Effect::KeyValue(KeyValueOperation::Put { .. })))
        .count();
    assert_eq!(writes, 0);
}

#[test]
fn tokens_loaded_from_an_exchange_are_written_once_before_the_user_fetch() {
    let mut m = model();
    let plan = App.update(Event::OnTokensLoaded { tokens: tokens(), suppress_store: false }, &mut m);
    let write = plain(Effect::KeyValue(KeyValueOperation::Put {
        key: "github_tokens".to_string(),
        value: bytes_of(&tokens()),
    }));
    assert_eq!(plan, vec![write, user_fetch(), render()]);
}

#[test]
fn got_tokens_from_store() {
    let mut m = model();
    assert_eq!(
        App.update(Event::GotTokensFromStore(Some(tokens())), &mut m),
        vec![user_fetch(), render()]
    );
    assert_eq!(App.update(Event::GotTokensFromStore(None), &mut m), vec![render()]);
    assert_eq!(App.view(&m).user_info, None);
}

#[test]
fn got_tokens_from_github() {
    let mut m = model();
    let plan = App.update(Event::GotTokensFromGitHub(Ok(tokens())), &mut m);
    assert_eq!(plan.len(), 3);
    assert_eq!(
        plan[0],
        plain(Effect::KeyValue(KeyValueOperation::Put {
            key: "github_tokens".to_string(),
            value: bytes_of(&tokens()),
        }))
    );
    assert_eq!(plan[1], user_fetch());
}

#[test]
fn failed_exchange_is_logged_and_routes_to_login() {
    let mut m = model();
    let failure = HttpError { message: "bad verification code".to_string() };
    let plan = App.update_with(
        Event::GotTokensFromGitHub(Err(failure)),
        &mut m,
        Some("AAAAbbbb00001111".to_string()),
    );
    assert_eq!(
        plan,
        vec![login_redirect("AAAAbbbb00001111"), error_log("bad verification code"), render()]
    );
}

#[test]
fn set_tokens_in_store_writes_the_pair() {
    let mut m = model();
    let plan = App.update(Event::SetTokensInStore(tokens()), &mut m);
    assert_eq!(
        plan,
        vec![
            plain(Effect::KeyValue(KeyValueOperation::Put {
                key: "github_tokens".to_string(),
                value: bytes_of(&tokens()),
            })),
            render(),
        ]
    );
}

#[test]
fn pair_that_cannot_be_written_is_logged() {
    let mut m = model();
    let odd = Tokens { access_token: token("a", i64::MAX), refresh_token: token("r", 0) };
    let plan = App.update(Event::SetTokensInStore(odd), &mut m);
    assert_eq!(plan, vec![error_log(NOT_STORED_MESSAGE), render()]);
}

#[test]
fn get_tokens_from_store_reads_with_a_continuation() {
    let mut m = model();
    let plan = App.update(Event::GetTokensFromStore, &mut m);
    assert_eq!(
        plan,
        vec![
            Request {
                effect: Effect::KeyValue(KeyValueOperation::Get { key: "github_tokens".to_string() }),
                next: Continuation::GotTokensFromStore,
            },
            render(),
        ]
    );
}

#[test]
fn get_github_user_starts_the_lookup() {
    let mut m = model();
    assert_eq!(App.update(Event::GetGithubUser, &mut m), vec![user_fetch(), render()]);
}

#[test]
fn got_github_user_caches_the_user() {
    let mut m = model();
    let plan = App.update(Event::GotGitHubUser(Ok(user())), &mut m);
    assert_eq!(plan, vec![render()]);
    assert_eq!(App.view(&m).user_info, Some(user_info()));
}

#[test]
fn missing_authentication_routes_to_login() {
    let mut m = logged_in();
    let plan = App.update_with(
        Event::GotGitHubUser(Err(GitHubApiError::ReAuthenticationRequired)),
        &mut m,
        Some("AAAAbbbb00001111".to_string()),
    );
    assert_eq!(plan, vec![login_redirect("AAAAbbbb00001111"), render()]);
    let mut m = model();
    let plan =
        App.update(Event::GotGitHubUser(Err(GitHubApiError::ReAuthenticationRequired)), &mut m);
    assert_eq!(plan.len(), 2);
    assert!(matches!(plan[0].effect, Effect::Redirect(_)));
}

#[test]
fn transport_failure_is_logged_and_routes_to_login() {
    let mut m = model();
    let failure = GitHubApiError::HttpError(HttpError { message: "503".to_string() });
    let plan = App.update_with(
        Event::GotGitHubUser(Err(failure)),
        &mut m,
        Some("AAAAbbbb00001111".to_string()),
    );
    assert_eq!(plan, vec![login_redirect("AAAAbbbb00001111"), error_log("503"), render()]);
}

#[test]
fn logout_clears_the_user_and_deletes_the_pair() {
    let mut m = logged_in();
    assert_eq!(App.view(&m).user_info, Some(user_info()));
    let plan = App.update(Event::LogoutButtonClicked, &mut m);
    assert_eq!(
        plan,
        vec![
            plain(Effect::KeyValue(KeyValueOperation::Delete { key: "github_tokens".to_string() })),
            render(),
        ]
    );
    assert_eq!(App.view(&m).user_info, None);
}

#[test]
fn every_message_renders_once_and_last() {
    let messages = || {
        vec![
            Event::InitialLoad,
            Event::LoginButtonClicked,
            Event::LogoutButtonClicked,
            Event::CallbackReceived("https://app/cb?code=abc123".to_string()),
            Event::CallbackReceived("https://app/cb".to_string()),
            Event::RedirectToLogin,
            Event::SetTokensInStore(tokens()),
            Event::GetTokensFromStore,
            Event::GotTokensFromStore(Some(tokens())),
            Event::GotTokensFromStore(None),
            Event::GetTokensFromGitHub { code: None },
            Event::GetTokensFromGitHub { code: Some("c".to_string()) },
            Event::GotTokensFromGitHub(Ok(tokens())),
            Event::GotTokensFromGitHub(Err(HttpError { message: "x".to_string() })),
            Event::GetGithubUser,
            Event::GotGitHubUser(Ok(user())),
            Event::GotGitHubUser(Err(GitHubApiError::ReAuthenticationRequired)),
            Event::GotGitHubUser(Err(GitHubApiError::HttpError(HttpError {
                message: "x".to_string(),
            }))),
            Event::OnTokensLoaded { tokens: tokens(), suppress_store: true },
            Event::OnTokensLoaded { tokens: tokens(), suppress_store: false },
        ]
    };
    for msg in messages() {
        let mut m = model();
        let plan = App.update(msg, &mut m);
        assert_eq!(count_renders(&plan), 1);
        assert_eq!(plan.last(), Some(&render()));
    }
    for msg in messages() {
        let mut m = model();
        let plan = App.update_with(msg, &mut m, None);
        assert_eq!(count_renders(&plan), 1);
        assert_eq!(plan.last(), Some(&render()));
    }
}

#[test]
fn needs_state_names_the_messages_that_may_redirect() {
    assert!(App::needs_state(&Event::LoginButtonClicked));
    assert!(App::needs_state(&Event::RedirectToLogin));
    assert!(App::needs_state(&Event::GotGitHubUser(Err(GitHubApiError::ReAuthenticationRequired))));
    assert!(App::needs_state(&Event::GotTokensFromGitHub(Err(HttpError {
        message: "x".to_string()
    }))));
    assert!(!App::needs_state(&Event::InitialLoad));
    assert!(!App::needs_state(&Event::LogoutButtonClicked));
    assert!(!App::needs_state(&Event::GotGitHubUser(Ok(user()))));
    assert!(!App::needs_state(&Event::GotTokensFromGitHub(Ok(tokens()))));
    assert!(!App::needs_state(&Event::CallbackReceived("https://app/cb".to_string())));
}

#[test]
fn entries_logged_by_the_host_are_handed_over_with_the_next_message() {
    let mut services = Services::new(config());
    services.logger.info("started".to_string());
    services.logger.warning("slow".to_string());
    let mut m = Model::new(services);
    let plan = App.update(Event::GotTokensFromStore(None), &mut m);
    assert_eq!(
        plan,
        vec![
            log(vec![
                LogEntry { level: LogLevel::Info, message: "started".to_string() },
                LogEntry { level: LogLevel::Warning, message: "slow".to_string() },
            ]),
            render(),
        ]
    );
    assert_eq!(App.update(Event::GotTokensFromStore(None), &mut m), vec![render()]);
}

#[test]
fn deliver_nothing() {
    let m = model();
    let now = Timestamp { secs: 0, nanos: 0 };
    assert_eq!(
        App.deliver(&m, Continuation::Nothing, Reply::Written, now),
        Delivery::Requests(vec![])
    );
}

#[test]
fn deliver_stored_tokens() {
    let m = model();
    let now = Timestamp { secs: 0, nanos: 0 };
    assert_eq!(
        App.deliver(
            &m,
            Continuation::GotTokensFromStore,
            Reply::Stored(Ok(Some(bytes_of(&tokens())))),
            now
        ),
        Delivery::Message(Event::GotTokensFromStore(Some(tokens())))
    );
    assert_eq!(
        App.deliver(&m, Continuation::GotTokensFromStore, Reply::Stored(Ok(None)), now),
        Delivery::Message(Event::GotTokensFromStore(None))
    );
    assert_eq!(
        App.deliver(&m, Continuation::GotTokensFromStore, Reply::Stored(Ok(Some(vec![7]))), now),
        Delivery::Message(Event::GotTokensFromStore(None))
    );
    assert_eq!(
        App.deliver(&m, Continuation::GotTokensFromStore, Reply::Written, now),
        Delivery::Message(Event::GotTokensFromStore(None))
    );
}

#[test]
fn deliver_exchanged_tokens() {
    let m = model();
    let now = Timestamp { secs: 1_000, nanos: 0 };
    assert_eq!(
        App.deliver(
            &m,
            Continuation::GotTokensFromGitHub,
            Reply::Exchanged(HttpResult::Success(response(60))),
            now
        ),
        Delivery::Message(Event::GotTokensFromGitHub(Ok(Tokens {
            access_token: token("ghu_new", 1_060),
            refresh_token: token("ghr_new", 1_060),
        })))
    );
    assert_eq!(
        App.deliver(
            &m,
            Continuation::GotTokensFromGitHub,
            Reply::Exchanged(HttpResult::Failure(HttpError { message: "401".to_string() })),
            now
        ),
        Delivery::Message(Event::GotTokensFromGitHub(Err(HttpError {
            message: "401".to_string()
        })))
    );
    assert_eq!(
        App.deliver(
            &m,
            Continuation::GotTokensFromGitHub,
            Reply::Exchanged(HttpResult::Success(response(u64::MAX))),
            now
        ),
        Delivery::Message(Event::GotTokensFromGitHub(Err(HttpError {
            message: EXPIRY_MESSAGE.to_string()
        })))
    );
    assert_eq!(
        App.deliver(&m, Continuation::GotTokensFromGitHub, Reply::Written, now),
        Delivery::Message(Event::GotTokensFromGitHub(Err(HttpError {
            message: "unexpected reply".to_string()
        })))
    );
}

#[test]
fn deliver_steps_of_the_user_lookup() {
    let m = model();
    let now = Timestamp { secs: 1_000, nanos: 0 };
    let loading = PendingCall { call: ApiCall::AuthenticatedUser, stage: Stage::Loading };
    assert_eq!(
        App.deliver(
            &m,
            Continuation::GitHub(loading),
            Reply::Stored(Ok(Some(bytes_of(&tokens())))),
            now
        ),
        Delivery::Requests(vec![Request {
            effect: Effect::KeyValue(KeyValueOperation::Put {
                key: "github_tokens".to_string(),
                value: bytes_of(&tokens()),
            }),
            next: Continuation::GitHub(PendingCall {
                call: ApiCall::AuthenticatedUser,
                stage: Stage::Persisting(tokens()),
            }),
        }])
    );
    let responding = PendingCall { call: ApiCall::AuthenticatedUser, stage: Stage::Responding };
    assert_eq!(
        App.deliver(
            &m,
            Continuation::GitHub(responding),
            Reply::User(HttpResult::Success(user())),
            now
        ),
        Delivery::Message(Event::GotGitHubUser(Ok(user())))
    );
    let loading = PendingCall { call: ApiCall::AuthenticatedUser, stage: Stage::Loading };
    assert_eq!(
        App.deliver(&m, Continuation::GitHub(loading), Reply::Stored(Ok(None)), now),
        Delivery::Message(Event::GotGitHubUser(Err(GitHubApiError::ReAuthenticationRequired)))
    );
}

#[test]
fn deliver_drops_file_contents() {
    let m = model();
    let now = Timestamp { secs: 1_000, nanos: 0 };
    let responding = PendingCall {
        call: ApiCall::FileContents {
            owner: "a".to_string(),
            repo: "b".to_string(),
            path: "c".to_string(),
        },
        stage: Stage::Responding,
    };
    assert_eq!(
        App.deliver(
            &m,
            Continuation::GitHub(responding),
            Reply::Text(HttpResult::Success("text".to_string())),
            now
        ),
        Delivery::Requests(vec![])
    );
}

#[test]
fn resume_runs_the_user_lookup_to_its_end() {
    let mut m = model();
    let plan = App.update(Event::GetGithubUser, &mut m);
    let next = match plan.into_iter().next() {
        Some(Request { next, .. }) => next,
        None => panic!("empty plan"),
    };
    // The stored pair is good for decades: it is written back, then used.
    let mut plan = App.resume(next, Reply::Stored(Ok(Some(bytes_of(&tokens())))), &mut m);
    assert_eq!(plan.len(), 1);
    let write = plan.remove(0);
    assert!(matches!(write.effect, Effect::KeyValue(KeyValueOperation::Put { .. })));
    let mut plan = App.resume(write.next, Reply::Written, &mut m);
    assert_eq!(plan.len(), 1);
    let fetch = plan.remove(0);
    match &fetch.effect {
        Effect::Http(request) => {
            assert_eq!(request.url, "https://api.github.com/user");
            assert_eq!(request.headers[0], ("Authorization".to_string(), "bearer ghu_a".to_string()));
        }
        other => panic!("unexpected effect {:?}", other),
    }
    let plan = App.resume(fetch.next, Reply::User(HttpResult::Success(user())), &mut m);
    assert_eq!(plan, vec![render()]);
    assert_eq!(App.view(&m).user_info, Some(user_info()));
}

#[test]
fn resume_without_stored_pair_routes_to_login() {
    let mut m = model();
    let plan = App.update(Event::GetGithubUser, &mut m);
    let next = match plan.into_iter().next() {
        Some(Request { next, .. }) => next,
        None => panic!("empty plan"),
    };
    let plan = App.resume(next, Reply::Stored(Ok(None)), &mut m);
    assert_eq!(plan.len(), 2);
    assert!(matches!(plan[0].effect, Effect::Redirect(_)));
    assert_eq!(plan[1], render());
    let network = plan.iter().filter(|r| matches!(r.effect, Effect::Http(_))).count();
    assert_eq!(network, 0);
}

#[test]
fn resume_with_an_expired_pair_refreshes_once() {
    let mut m = model();
    let expired = Tokens { access_token: token("ghu_a", 1), refresh_token: token("ghr_r", 5_000_000_000) };
    let persisting = Continuation::GitHub(PendingCall {
        call: ApiCall::AuthenticatedUser,
        stage: Stage::Persisting(expired),
    });
    let mut plan = App.resume(persisting, Reply::Written, &mut m);
    assert_eq!(plan.len(), 1);
    let refresh = plan.remove(0);
    match &refresh.effect {
        Effect::Http(request) => {
            assert_eq!(request.url, "https://github.com/login/oauth/access_token");
            assert_eq!(request.query[2], ("grant_type".to_string(), "refresh_token".to_string()));
            assert_eq!(request.query[3], ("refresh_token".to_string(), "ghr_r".to_string()));
        }
        other => panic!("unexpected effect {:?}", other),
    }
    let plan = App.resume(refresh.next, Reply::Exchanged(HttpResult::Success(response(3_600))), &mut m);
    assert_eq!(plan.len(), 1);
    match &plan[0].effect {
        Effect::Http(request) => {
            assert_eq!(request.url, "https://api.github.com/user");
            assert_eq!(
                request.headers[0],
                ("Authorization".to_string(), "bearer ghu_new".to_string())
            );
        }
        other => panic!("unexpected effect {:?}", other),
    }
}

#[test]
fn resume_of_a_code_exchange_stores_the_pair_and_fetches_the_user() {
    let mut m = model();
    let plan = App.resume(
        Continuation::GotTokensFromGitHub,
        Reply::Exchanged(HttpResult::Success(response(3_600))),
        &mut m,
    );
    assert_eq!(plan.len(), 3);
    assert!(matches!(plan[0].effect, Effect::KeyValue(KeyValueOperation::Put { .. })));
    assert_eq!(plan[1], user_fetch());
    assert_eq!(plan[2], render());
}

#[test]
fn resume_of_a_store_read() {
    let mut m = model();
    let plan = App.resume(
        Continuation::GotTokensFromStore,
        Reply::Stored(Ok(Some(bytes_of(&tokens())))),
        &mut m,
    );
    assert_eq!(plan, vec![user_fetch(), render()]);
    let plan = App.resume(Continuation::GotTokensFromStore, Reply::Stored(Ok(None)), &mut m);
    assert_eq!(plan, vec![render()]);
    let plan = App.resume(Continuation::Nothing, Reply::Written, &mut m);
    assert_eq!(plan, vec![]);
}

#[test]
fn redirect_and_log_requests_await_nothing() {
    assert_eq!(
        redirect("https://example.org/".to_string()),
        plain(Effect::Redirect(RedirectOperation { url: "https://example.org/".to_string() }))
    );
    assert_eq!(log(vec![]), plain(Effect::Log(LogOperation { entries: vec![] })));
    assert_eq!(render(), plain(Effect::Render(RenderOperation)));
}

#[test]
fn default_app_is_the_app() {
    assert_eq!(App::default(), App);
}
