//! The authenticated client of the GitHub API and the chain of calls that one
//! of its operations makes.

use crate::github::auth::{exchange_view, token_request, GitHubAccessTokenResponse,
    GitHubAccessTokenResponseView, GitHubAuthenticationHandler, GitHubAuthenticationHandlerView,
    GITHUB_JSON_MEDIA_TYPE_NAME, GITHUB_RAW_MEDIA_TYPE_NAME};
use crate::github::token_manager::{GitHubTokenManager, GitHubTokenManagerView, TokenStep,
    TokenStepView};
use crate::http::{no_pairs, push_pair, Expect, HttpError, HttpMethod, HttpRequest,
    HttpRequestView, HttpResult};
use crate::key_value::{KeyValueError, KeyValueOperation, KeyValueOperationView};
use crate::text::{owned, trim_end_matches, trim_start_matches, without_leading, without_trailing};
use crate::time::Timestamp;
use crate::tokens::{reply_view, Token, TokenStore, TokenView, Tokens, TokensView};
use vstd::prelude::*;

verus! {

/// The body of the lookup of the authenticated user.
#[derive(Debug, PartialEq, Eq)]
pub struct GitHubAuthenticatedUserResponse {
    pub login: String,
    pub name: String,
    pub avatar_url: String,
}

/// The mathematical content of a [`GitHubAuthenticatedUserResponse`].
pub ghost struct GitHubAuthenticatedUserResponseView {
    pub login: Seq<char>,
    pub name: Seq<char>,
    pub avatar_url: Seq<char>,
}

impl View for GitHubAuthenticatedUserResponse {
    type V = GitHubAuthenticatedUserResponseView;

    open spec fn view(&self) -> GitHubAuthenticatedUserResponseView {
        GitHubAuthenticatedUserResponseView {
            login: self.login@,
            name: self.name@,
            avatar_url: self.avatar_url@,
        }
    }
}

/// Why an authenticated call gave no result.
#[derive(Debug, PartialEq, Eq)]
pub enum GitHubApiError {
    /// The exchange with the server failed.
    HttpError(HttpError),
    /// There is no valid access token and none can be had by a refresh: the
    /// user has to authenticate again.
    ReAuthenticationRequired,
}

/// The mathematical content of a [`GitHubApiError`].
pub ghost enum GitHubApiErrorView {
    HttpError(Seq<char>),
    ReAuthenticationRequired,
}

impl View for GitHubApiError {
    type V = GitHubApiErrorView;

    open spec fn view(&self) -> GitHubApiErrorView {
        match self {
            GitHubApiError::HttpError(error) => GitHubApiErrorView::HttpError(error@),
            GitHubApiError::ReAuthenticationRequired => {
                GitHubApiErrorView::ReAuthenticationRequired
            },
        }
    }
}

impl GitHubApiError {
    /// A failed exchange as an error of the API.
    pub fn from(value: HttpError) -> (r: Self)
        ensures
            r@ == GitHubApiErrorView::HttpError(value@),
    {
        GitHubApiError::HttpError(value)
    }
}

/// What the host hands back once it has carried out a request.
#[derive(Debug, PartialEq, Eq)]
pub enum Reply {
    /// The store's reply to a read: the value, if there is one.
    Stored(Result<Option<Vec<u8>>, KeyValueError>),
    /// The store has dealt with a write or a removal.
    Written,
    /// The reply to a token exchange.
    Exchanged(HttpResult<GitHubAccessTokenResponse, HttpError>),
    /// The reply to the lookup of the authenticated user.
    User(HttpResult<GitHubAuthenticatedUserResponse, HttpError>),
    /// The reply to a request for a raw body.
    Text(HttpResult<String, HttpError>),
}

/// The mathematical content of a [`Reply`].
pub ghost enum ReplyView {
    Stored(Result<Option<Seq<u8>>, Seq<char>>),
    Written,
    Exchanged(Result<GitHubAccessTokenResponseView, Seq<char>>),
    User(Result<GitHubAuthenticatedUserResponseView, Seq<char>>),
    Text(Result<Seq<char>, Seq<char>>),
}

impl View for Reply {
    type V = ReplyView;

    open spec fn view(&self) -> ReplyView {
        match self {
            Reply::Stored(reply) => ReplyView::Stored(reply_view(*reply)),
            Reply::Written => ReplyView::Written,
            Reply::Exchanged(reply) => ReplyView::Exchanged(exchange_view(*reply)),
            Reply::User(HttpResult::Success(user)) => ReplyView::User(Ok(user@)),
            Reply::User(HttpResult::Failure(error)) => ReplyView::User(Err(error@)),
            Reply::Text(HttpResult::Success(text)) => ReplyView::Text(Ok(text@)),
            Reply::Text(HttpResult::Failure(error)) => ReplyView::Text(Err(error@)),
        }
    }
}

/// An authenticated operation of the client.
#[derive(Debug, PartialEq, Eq)]
pub enum ApiCall {
    /// Look up the user the access token belongs to.
    AuthenticatedUser,
    /// Fetch the raw content of a file of a repository.
    FileContents { owner: String, repo: String, path: String },
}

/// The mathematical content of an [`ApiCall`].
pub ghost enum ApiCallView {
    AuthenticatedUser,
    FileContents { owner: Seq<char>, repo: Seq<char>, path: Seq<char> },
}

impl View for ApiCall {
    type V = ApiCallView;

    open spec fn view(&self) -> ApiCallView {
        match self {
            ApiCall::AuthenticatedUser => ApiCallView::AuthenticatedUser,
            ApiCall::FileContents { owner, repo, path } => ApiCallView::FileContents {
                owner: owner@,
                repo: repo@,
                path: path@,
            },
        }
    }
}

impl ApiCallView {
    /// The path of the operation below the base URL of the API.
    pub open spec fn endpoint(self) -> Seq<char> {
        match self {
            ApiCallView::AuthenticatedUser => "user"@,
            ApiCallView::FileContents { owner, repo, path } => "repos/"@ + owner + "/"@ + repo
                + "/contents/"@ + path,
        }
    }

    /// The media type the operation accepts.
    pub open spec fn media_type(self) -> Seq<char> {
        match self {
            ApiCallView::AuthenticatedUser => GITHUB_JSON_MEDIA_TYPE_NAME@,
            ApiCallView::FileContents { .. } => GITHUB_RAW_MEDIA_TYPE_NAME@,
        }
    }

    /// The body the operation expects.
    pub open spec fn expect(self) -> Expect {
        match self {
            ApiCallView::AuthenticatedUser => Expect::User,
            ApiCallView::FileContents { .. } => Expect::Text,
        }
    }
}

/// Where an authenticated operation stands while it waits for the host.
#[derive(Debug, PartialEq, Eq)]
pub enum Stage {
    /// The stored pair is being read.
    Loading,
    /// The loaded pair is being written back.
    Persisting(Tokens),
    /// The refresh token is being exchanged.
    Refreshing,
    /// The authenticated request has been sent.
    Responding,
}

/// The mathematical content of a [`Stage`].
pub ghost enum StageView {
    Loading,
    Persisting(TokensView),
    Refreshing,
    Responding,
}

impl View for Stage {
    type V = StageView;

    open spec fn view(&self) -> StageView {
        match self {
            Stage::Loading => StageView::Loading,
            Stage::Persisting(tokens) => StageView::Persisting(tokens@),
            Stage::Refreshing => StageView::Refreshing,
            Stage::Responding => StageView::Responding,
        }
    }
}

/// An authenticated operation that waits for a reply of the host: what it is
/// and where it stands. The host hands it back with the reply.
#[derive(Debug, PartialEq, Eq)]
pub struct PendingCall {
    pub call: ApiCall,
    pub stage: Stage,
}

/// The mathematical content of a [`PendingCall`].
pub ghost struct PendingCallView {
    pub call: ApiCallView,
    pub stage: StageView,
}

impl View for PendingCall {
    type V = PendingCallView;

    open spec fn view(&self) -> PendingCallView {
        PendingCallView { call: self.call@, stage: self.stage@ }
    }
}

/// The result of an authenticated operation.
#[derive(Debug, PartialEq, Eq)]
pub enum ApiResult {
    User(Result<GitHubAuthenticatedUserResponse, GitHubApiError>),
    File(Result<String, GitHubApiError>),
}

/// The mathematical content of an [`ApiResult`].
pub ghost enum ApiResultView {
    User(Result<GitHubAuthenticatedUserResponseView, GitHubApiErrorView>),
    File(Result<Seq<char>, GitHubApiErrorView>),
}

impl View for ApiResult {
    type V = ApiResultView;

    open spec fn view(&self) -> ApiResultView {
        match self {
            ApiResult::User(Ok(user)) => ApiResultView::User(Ok(user@)),
            ApiResult::User(Err(error)) => ApiResultView::User(Err(error@)),
            ApiResult::File(Ok(text)) => ApiResultView::File(Ok(text@)),
            ApiResult::File(Err(error)) => ApiResultView::File(Err(error@)),
        }
    }
}

/// What an authenticated operation does next.
#[derive(Debug, PartialEq, Eq)]
pub enum ApiStep {
    /// Ask the store, and come back with its reply.
    KeyValue(KeyValueOperation, PendingCall),
    /// Send the request, and come back with its reply.
    Http(HttpRequest, PendingCall),
    /// The operation has ended.
    Done(ApiResult),
}

/// The mathematical content of an [`ApiStep`].
pub ghost enum ApiStepView {
    KeyValue(KeyValueOperationView, PendingCallView),
    Http(HttpRequestView, PendingCallView),
    Done(ApiResultView),
}

impl View for ApiStep {
    type V = ApiStepView;

    open spec fn view(&self) -> ApiStepView {
        match self {
            ApiStep::KeyValue(operation, pending) => ApiStepView::KeyValue(operation@, pending@),
            ApiStep::Http(request, pending) => ApiStepView::Http(request@, pending@),
            ApiStep::Done(result) => ApiStepView::Done(result@),
        }
    }
}

/// The authenticated client of the GitHub API.
///
/// An operation is a chain of calls to the host: the token manager's, then the
/// authenticated request. [`GitHubClient::resume`] takes the chain one step
/// further with each reply.
#[derive(Debug, PartialEq, Eq)]
pub struct GitHubClient {
    base_url: String,
    token_manager: GitHubTokenManager,
}

/// The mathematical content of a [`GitHubClient`].
pub ghost struct GitHubClientView {
    pub base_url: Seq<char>,
    pub manager: GitHubTokenManagerView,
}

impl View for GitHubClient {
    type V = GitHubClientView;

    closed spec fn view(&self) -> GitHubClientView {
        GitHubClientView { base_url: self.base_url@, manager: self.token_manager@ }
    }
}

impl GitHubClientView {
    /// The URL of `endpoint`: the base URL and the endpoint, joined by exactly
    /// one slash where they meet.
    pub open spec fn url_of(self, endpoint: Seq<char>) -> Seq<char> {
        without_trailing(self.base_url, |c: char| c == '/') + seq!['/'] + without_leading(
            endpoint,
            |c: char| c == '/',
        )
    }

    /// The request of `call`, authenticated by `token`.
    pub open spec fn authenticated_request(
        self,
        call: ApiCallView,
        token: TokenView,
    ) -> HttpRequestView {
        HttpRequestView {
            method: HttpMethod::Get,
            url: self.url_of(call.endpoint()),
            headers: seq![
                ("Authorization"@, token.authorization()),
                ("Accept"@, call.media_type()),
            ],
            query: Seq::empty(),
            expect: call.expect(),
        }
    }

    /// The step of `call` once the token manager has answered: the
    /// authenticated request, or the end of the operation where there is no
    /// token. Nothing is sent without a token.
    pub open spec fn with_token(self, call: ApiCallView, token: Option<TokenView>) -> ApiStepView {
        match token {
            Some(token) => ApiStepView::Http(
                self.authenticated_request(call, token),
                PendingCallView { call, stage: StageView::Responding },
            ),
            None => ApiStepView::Done(
                failed(call, GitHubApiErrorView::ReAuthenticationRequired),
            ),
        }
    }

    /// The step of `call` that carries out `step` of the token manager.
    pub open spec fn token_step(self, call: ApiCallView, step: TokenStepView) -> ApiStepView {
        match step {
            TokenStepView::Persist(operation, tokens) => ApiStepView::KeyValue(
                operation,
                PendingCallView { call, stage: StageView::Persisting(tokens) },
            ),
            TokenStepView::Refresh(request) => ApiStepView::Http(
                request,
                PendingCallView { call, stage: StageView::Refreshing },
            ),
            TokenStepView::Done(token) => self.with_token(call, token),
        }
    }

    /// The first step of `call`: the token manager's read of the store.
    pub open spec fn start(call: ApiCallView) -> ApiStepView {
        ApiStepView::KeyValue(
            GitHubTokenManagerView::load(),
            PendingCallView { call, stage: StageView::Loading },
        )
    }

    /// The step that follows `pending` when the host replies `reply` at `now`.
    /// A reply of another kind than the stage waits for counts as a failure
    /// of the awaited call; the reply to a write is not looked at.
    pub open spec fn resume(
        self,
        pending: PendingCallView,
        reply: ReplyView,
        now: Timestamp,
    ) -> ApiStepView {
        match pending.stage {
            StageView::Loading => self.token_step(
                pending.call,
                self.manager.after_load(
                    match reply {
                        ReplyView::Stored(stored) => stored,
                        _ => Ok(None),
                    },
                    now,
                ),
            ),
            StageView::Persisting(tokens) => self.token_step(
                pending.call,
                self.manager.after_persist(tokens, now),
            ),
            StageView::Refreshing => self.with_token(
                pending.call,
                match reply {
                    ReplyView::Exchanged(exchange) => GitHubTokenManagerView::after_refresh(
                        exchange,
                        now,
                    ),
                    _ => None,
                },
            ),
            StageView::Responding => ApiStepView::Done(response(pending.call, reply)),
        }
    }
}

/// The result of `call` when it ends with `error`.
pub open spec fn failed(call: ApiCallView, error: GitHubApiErrorView) -> ApiResultView {
    match call {
        ApiCallView::AuthenticatedUser => ApiResultView::User(Err(error)),
        ApiCallView::FileContents { .. } => ApiResultView::File(Err(error)),
    }
}

/// The message of the error that stands for a reply of an unexpected kind.
pub open spec fn unexpected_reply() -> Seq<char> {
    "unexpected reply"@
}

/// The result of `call` when the host replies `reply` to its authenticated
/// request.
pub open spec fn response(call: ApiCallView, reply: ReplyView) -> ApiResultView {
    match (call, reply) {
        (ApiCallView::AuthenticatedUser, ReplyView::User(Ok(user))) => ApiResultView::User(
            Ok(user),
        ),
        (ApiCallView::AuthenticatedUser, ReplyView::User(Err(error))) => ApiResultView::User(
            Err(GitHubApiErrorView::HttpError(error)),
        ),
        (ApiCallView::FileContents { .. }, ReplyView::Text(Ok(text))) => ApiResultView::File(
            Ok(text),
        ),
        (ApiCallView::FileContents { .. }, ReplyView::Text(Err(error))) => ApiResultView::File(
            Err(GitHubApiErrorView::HttpError(error)),
        ),
        _ => failed(call, GitHubApiErrorView::HttpError(unexpected_reply())),
    }
}

impl GitHubClient {
    /// A client of the API at `base_url` for the application registered
    /// under `client_id`.
    pub fn new(
        token_store: TokenStore,
        base_url: &str,
        client_id: &str,
        client_secret: &str,
        redirect_uri: &str,
    ) -> (r: Self)
        ensures
            r@ == (GitHubClientView {
                base_url: base_url@,
                manager: GitHubTokenManagerView {
                    handler: GitHubAuthenticationHandlerView {
                        client_id: client_id@,
                        client_secret: client_secret@,
                        redirect_uri: redirect_uri@,
                    },
                },
            }),
    {
        Self {
            base_url: owned(base_url),
            token_manager: GitHubTokenManager::new(
                token_store,
                GitHubAuthenticationHandler::new(client_id, client_secret, redirect_uri),
            ),
        }
    }

    /// The URL of `endpoint` below the base URL.
    pub fn build_url(&self, endpoint: &str) -> (r: String)
        ensures
            r@ == self@.url_of(endpoint@),
    {
        let mut url = owned(trim_end_matches(self.base_url.as_str(), '/'));
        url.append("/");
        url.append(trim_start_matches(endpoint, '/'));
        proof {
            reveal_strlit("/");
        }
        url
    }

    /// The request that exchanges the authorization code `code`.
    pub fn get_access_token_from_code(&self, code: &str) -> (r: HttpRequest)
        ensures
            r@ == token_request(self@.manager.handler.code_query(code@)),
    {
        self.token_manager.get_access_token_from_code(code)
    }

    /// Starts the lookup of the authenticated user.
    pub fn get_authenticated_user(&self) -> (r: ApiStep)
        ensures
            r@ == GitHubClientView::start(ApiCallView::AuthenticatedUser),
    {
        self.start(ApiCall::AuthenticatedUser)
    }

    /// Starts the fetch of the raw content of the file `path` in the
    /// repository `repo` of `owner`.
    pub fn get_file_contents(&self, owner: &str, repo: &str, path: &str) -> (r: ApiStep)
        ensures
            r@ == GitHubClientView::start(
                ApiCallView::FileContents { owner: owner@, repo: repo@, path: path@ },
            ),
    {
        self.start(
            ApiCall::FileContents { owner: owned(owner), repo: owned(repo), path: owned(path) },
        )
    }

    /// Takes `pending` one step further with the host's `reply`, received at
    /// `now`.
    pub fn resume(&self, pending: PendingCall, reply: Reply, now: Timestamp) -> (r: ApiStep)
        ensures
            r@ == self@.resume(pending@, reply@, now),
    {
        let PendingCall { call, stage } = pending;
        match stage {
            Stage::Loading => {
                let stored = match reply {
                    Reply::Stored(stored) => stored,
                    _ => Ok(None),
                };
                let step = self.token_manager.on_loaded(stored, now);
                self.token_step(call, step)
            },
            Stage::Persisting(tokens) => {
                let step = self.token_manager.on_persisted(tokens, now);
                self.token_step(call, step)
            },
            Stage::Refreshing => {
                let token = match reply {
                    Reply::Exchanged(exchange) => self.token_manager.on_refreshed(exchange, now),
                    _ => None,
                };
                self.with_token(call, token)
            },
            Stage::Responding => ApiStep::Done(respond(call, reply)),
        }
    }

    fn start(&self, call: ApiCall) -> (r: ApiStep)
        ensures
            r@ == GitHubClientView::start(call@),
    {
        ApiStep::KeyValue(
            self.token_manager.get_access_token(),
            PendingCall { call, stage: Stage::Loading },
        )
    }

    fn token_step(&self, call: ApiCall, step: TokenStep) -> (r: ApiStep)
        ensures
            r@ == self@.token_step(call@, step@),
    {
        match step {
            TokenStep::Persist(operation, tokens) => ApiStep::KeyValue(
                operation,
                PendingCall { call, stage: Stage::Persisting(tokens) },
            ),
            TokenStep::Refresh(request) => ApiStep::Http(
                request,
                PendingCall { call, stage: Stage::Refreshing },
            ),
            TokenStep::Done(token) => self.with_token(call, token),
        }
    }

    fn with_token(&self, call: ApiCall, token: Option<Token>) -> (r: ApiStep)
        ensures
            r@ == self@.with_token(call@, token.deep_view()),
    {
        match token {
            Some(token) => {
                let request = self.authenticated_request(&call, &token);
                ApiStep::Http(request, PendingCall { call, stage: Stage::Responding })
            },
            None => ApiStep::Done(fail(call, GitHubApiError::ReAuthenticationRequired)),
        }
    }

    /// The request of `call`, authenticated by `token`.
    pub fn authenticated_request(&self, call: &ApiCall, token: &Token) -> (r: HttpRequest)
        ensures
            r@ == self@.authenticated_request(call@, token@),
    {
        let (endpoint, media_type, expect) = match call {
            ApiCall::AuthenticatedUser => (
                owned("user"),
                GITHUB_JSON_MEDIA_TYPE_NAME,
                Expect::User,
            ),
            ApiCall::FileContents { owner, repo, path } => {
                let mut endpoint = owned("repos/");
                endpoint.append(owner.as_str());
                endpoint.append("/");
                endpoint.append(repo.as_str());
                endpoint.append("/contents/");
                endpoint.append(path.as_str());
                (endpoint, GITHUB_RAW_MEDIA_TYPE_NAME, Expect::Text)
            },
        };
        let authorization = token.to_authorization_header_value();
        let mut headers = no_pairs();
        push_pair(&mut headers, "Authorization", authorization.as_str());
        push_pair(&mut headers, "Accept", media_type);
        assert(headers.deep_view() =~= seq![
            ("Authorization"@, token@.authorization()),
            ("Accept"@, call@.media_type()),
        ]);
        HttpRequest {
            method: HttpMethod::Get,
            url: self.build_url(endpoint.as_str()),
            headers,
            query: no_pairs(),
            expect,
        }
    }
}

/// The result of `call` when it ends with `error`.
fn fail(call: ApiCall, error: GitHubApiError) -> (r: ApiResult)
    ensures
        r@ == failed(call@, error@),
{
    match call {
        ApiCall::AuthenticatedUser => ApiResult::User(Err(error)),
        ApiCall::FileContents { .. } => ApiResult::File(Err(error)),
    }
}

/// The result of `call` when the host replies `reply` to its authenticated
/// request.
fn respond(call: ApiCall, reply: Reply) -> (r: ApiResult)
    ensures
        r@ == response(call@, reply@),
{
    match (call, reply) {
        (ApiCall::AuthenticatedUser, Reply::User(HttpResult::Success(user))) => ApiResult::User(
            Ok(user),
        ),
        (ApiCall::AuthenticatedUser, Reply::User(HttpResult::Failure(error))) => ApiResult::User(
            Err(GitHubApiError::from(error)),
        ),
        (ApiCall::FileContents { .. }, Reply::Text(HttpResult::Success(text))) => ApiResult::File(
            Ok(text),
        ),
        (ApiCall::FileContents { .. }, Reply::Text(HttpResult::Failure(error))) => ApiResult::File(
            Err(GitHubApiError::from(error)),
        ),
        (call, _) => fail(
            call,
            GitHubApiError::from(HttpError { message: owned("unexpected reply") }),
        ),
    }
}

} // verus!
