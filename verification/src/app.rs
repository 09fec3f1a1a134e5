//! The reducer: every message becomes a new state of the model and an ordered
//! plan of requests to the host.

use crate::film::{MonthOfYear, Rating, WatchedFilm, WatchedFilmView};
use crate::github::{token_request, unexpected_reply, ApiCallView, ApiResult, ApiResultView,
    ApiStep, ApiStepView, GitHubApiError, GitHubApiErrorView, GitHubAuthenticatedUserResponse,
    GitHubAuthenticatedUserResponseView, GitHubClientView, PendingCall, PendingCallView, Reply,
    ReplyView};
use crate::http::{HttpError, HttpRequest, HttpRequestView, HttpResult};
use crate::key_value::{KeyValueOperation, KeyValueOperationView};
use crate::logging::{LogEntry, LogEntryView, LogLevel};
use crate::oauth::{build_login_url, callback_code, fresh_state, is_state, login_url,
    read_callback_code};
use crate::redirect::{redirect, RedirectOperation};
use crate::services::{Services, ServicesView};
use crate::text::owned;
use crate::time::Timestamp;
use crate::tokens::{TokenStore, Tokens, TokensView};
use vstd::prelude::*;

verus! {

/// The derived view has changed; the host reads it again.
#[derive(Clone, Copy, Debug, PartialEq, Eq, Structural)]
pub struct RenderOperation;

/// Entries of the log, for the host to record.
#[derive(Debug, PartialEq, Eq)]
pub struct LogOperation {
    pub entries: Vec<LogEntry>,
}

impl View for LogOperation {
    type V = Seq<LogEntryView>;

    open spec fn view(&self) -> Seq<LogEntryView> {
        self.entries.deep_view()
    }
}

/// A request to one of the capabilities of the host.
#[derive(Debug, PartialEq, Eq)]
pub enum Effect {
    Render(RenderOperation),
    Http(HttpRequest),
    Redirect(RedirectOperation),
    KeyValue(KeyValueOperation),
    Log(LogOperation),
}

/// The mathematical content of an [`Effect`].
pub ghost enum EffectView {
    Render,
    Http(HttpRequestView),
    Redirect(Seq<char>),
    KeyValue(KeyValueOperationView),
    Log(Seq<LogEntryView>),
}

impl View for Effect {
    type V = EffectView;

    open spec fn view(&self) -> EffectView {
        match self {
            Effect::Render(_) => EffectView::Render,
            Effect::Http(request) => EffectView::Http(request@),
            Effect::Redirect(operation) => EffectView::Redirect(operation@),
            Effect::KeyValue(operation) => EffectView::KeyValue(operation@),
            Effect::Log(operation) => EffectView::Log(operation@),
        }
    }
}

/// What becomes of the host's reply to a request.
#[derive(Debug, PartialEq, Eq)]
pub enum Continuation {
    /// No reply is awaited.
    Nothing,
    /// The reply is the stored token pair; it becomes
    /// [`Event::GotTokensFromStore`].
    GotTokensFromStore,
    /// The reply is that of the exchange of an authorization code; it becomes
    /// [`Event::GotTokensFromGitHub`].
    GotTokensFromGitHub,
    /// The reply takes an authenticated operation one step further.
    GitHub(PendingCall),
}

/// The mathematical content of a [`Continuation`].
pub ghost enum ContinuationView {
    Nothing,
    GotTokensFromStore,
    GotTokensFromGitHub,
    GitHub(PendingCallView),
}

impl View for Continuation {
    type V = ContinuationView;

    open spec fn view(&self) -> ContinuationView {
        match self {
            Continuation::Nothing => ContinuationView::Nothing,
            Continuation::GotTokensFromStore => ContinuationView::GotTokensFromStore,
            Continuation::GotTokensFromGitHub => ContinuationView::GotTokensFromGitHub,
            Continuation::GitHub(pending) => ContinuationView::GitHub(pending@),
        }
    }
}

/// One entry of a plan: a request to the host, and what becomes of the reply.
#[derive(Debug, PartialEq, Eq)]
pub struct Request {
    pub effect: Effect,
    pub next: Continuation,
}

/// The mathematical content of a [`Request`].
pub ghost struct RequestView {
    pub effect: EffectView,
    pub next: ContinuationView,
}

impl View for Request {
    type V = RequestView;

    open spec fn view(&self) -> RequestView {
        RequestView { effect: self.effect@, next: self.next@ }
    }
}

impl DeepView for Request {
    type V = RequestView;

    open spec fn deep_view(&self) -> RequestView {
        self@
    }
}

impl RequestView {
    /// A request whose reply nobody waits for.
    pub open spec fn of(effect: EffectView) -> RequestView {
        RequestView { effect, next: ContinuationView::Nothing }
    }

    /// The request that carries out a step of an authenticated operation which
    /// has not ended.
    pub open spec fn of_step(step: ApiStepView) -> RequestView
        recommends
            !(step is Done),
    {
        match step {
            ApiStepView::KeyValue(operation, pending) => RequestView {
                effect: EffectView::KeyValue(operation),
                next: ContinuationView::GitHub(pending),
            },
            ApiStepView::Http(request, pending) => RequestView {
                effect: EffectView::Http(request),
                next: ContinuationView::GitHub(pending),
            },
            ApiStepView::Done(_) => RequestView::of(EffectView::Render),
        }
    }
}

/// The request to record `entries`.
pub fn log(entries: Vec<LogEntry>) -> (r: Request)
    ensures
        r@ == RequestView::of(EffectView::Log(entries.deep_view())),
{
    Request { effect: Effect::Log(LogOperation { entries }), next: Continuation::Nothing }
}

/// The request to read the view again.
pub fn render() -> (r: Request)
    ensures
        r@ == RequestView::of(EffectView::Render),
{
    Request { effect: Effect::Render(RenderOperation), next: Continuation::Nothing }
}

/// The user that is logged in.
#[derive(Debug, PartialEq, Eq)]
pub struct UserInfo {
    pub login: String,
    pub name: String,
    pub avatar_url: String,
}

/// The mathematical content of a [`UserInfo`].
pub ghost struct UserInfoView {
    pub login: Seq<char>,
    pub name: Seq<char>,
    pub avatar_url: Seq<char>,
}

impl View for UserInfo {
    type V = UserInfoView;

    open spec fn view(&self) -> UserInfoView {
        UserInfoView { login: self.login@, name: self.name@, avatar_url: self.avatar_url@ }
    }
}

impl DeepView for UserInfo {
    type V = UserInfoView;

    open spec fn deep_view(&self) -> UserInfoView {
        self@
    }
}

impl Clone for UserInfo {
    fn clone(&self) -> (r: Self)
        ensures
            r == *self,
    {
        UserInfo {
            login: self.login.clone(),
            name: self.name.clone(),
            avatar_url: self.avatar_url.clone(),
        }
    }
}

/// The snapshot of the model that the user interface shows.
#[derive(Debug, PartialEq, Eq)]
pub struct ViewModel {
    pub films: Vec<WatchedFilm>,
    pub user_info: Option<UserInfo>,
}

/// The mathematical content of a [`ViewModel`].
pub ghost struct ViewModelView {
    pub films: Seq<WatchedFilmView>,
    pub user_info: Option<UserInfoView>,
}

impl View for ViewModel {
    type V = ViewModelView;

    open spec fn view(&self) -> ViewModelView {
        ViewModelView { films: self.films.deep_view(), user_info: self.user_info.deep_view() }
    }
}

/// The state of the core. Only the reducer changes it.
#[derive(Debug, PartialEq, Eq)]
pub struct Model {
    services: Services,
    user_info: Option<UserInfo>,
    films: Vec<WatchedFilm>,
}

/// The mathematical content of a [`Model`].
pub ghost struct ModelView {
    pub services: ServicesView,
    pub user_info: Option<UserInfoView>,
    pub films: Seq<WatchedFilmView>,
}

impl View for Model {
    type V = ModelView;

    closed spec fn view(&self) -> ModelView {
        ModelView {
            services: self.services@,
            user_info: self.user_info.deep_view(),
            films: self.films.deep_view(),
        }
    }
}

/// A message to the reducer. The first four come from the user interface; the
/// others are the core's own and never cross that boundary.
#[derive(Debug, PartialEq, Eq)]
pub enum Event {
    InitialLoad,
    LoginButtonClicked,
    LogoutButtonClicked,
    /// The identity provider has sent the user back to this URL.
    CallbackReceived(String),
    RedirectToLogin,
    SetTokensInStore(Tokens),
    GetTokensFromStore,
    GotTokensFromStore(Option<Tokens>),
    GetTokensFromGitHub { code: Option<String> },
    GotTokensFromGitHub(Result<Tokens, HttpError>),
    GetGithubUser,
    GotGitHubUser(Result<GitHubAuthenticatedUserResponse, GitHubApiError>),
    /// A token pair is at hand, from the store or from an exchange.
    /// `suppress_store` says that it came from the store and need not be
    /// written there.
    OnTokensLoaded { tokens: Tokens, suppress_store: bool },
}

/// The mathematical content of an [`Event`].
pub ghost enum EventView {
    InitialLoad,
    LoginButtonClicked,
    LogoutButtonClicked,
    CallbackReceived(Seq<char>),
    RedirectToLogin,
    SetTokensInStore(TokensView),
    GetTokensFromStore,
    GotTokensFromStore(Option<TokensView>),
    GetTokensFromGitHub { code: Option<Seq<char>> },
    GotTokensFromGitHub(Result<TokensView, Seq<char>>),
    GetGithubUser,
    GotGitHubUser(Result<GitHubAuthenticatedUserResponseView, GitHubApiErrorView>),
    OnTokensLoaded { tokens: TokensView, suppress_store: bool },
}

impl View for Event {
    type V = EventView;

    open spec fn view(&self) -> EventView {
        match self {
            Event::InitialLoad => EventView::InitialLoad,
            Event::LoginButtonClicked => EventView::LoginButtonClicked,
            Event::LogoutButtonClicked => EventView::LogoutButtonClicked,
            Event::CallbackReceived(url) => EventView::CallbackReceived(url@),
            Event::RedirectToLogin => EventView::RedirectToLogin,
            Event::SetTokensInStore(tokens) => EventView::SetTokensInStore(tokens@),
            Event::GetTokensFromStore => EventView::GetTokensFromStore,
            Event::GotTokensFromStore(tokens) => EventView::GotTokensFromStore(tokens.deep_view()),
            Event::GetTokensFromGitHub { code } => EventView::GetTokensFromGitHub {
                code: code.deep_view(),
            },
            Event::GotTokensFromGitHub(Ok(tokens)) => EventView::GotTokensFromGitHub(Ok(tokens@)),
            Event::GotTokensFromGitHub(Err(error)) => EventView::GotTokensFromGitHub(Err(error@)),
            Event::GetGithubUser => EventView::GetGithubUser,
            Event::GotGitHubUser(Ok(user)) => EventView::GotGitHubUser(Ok(user@)),
            Event::GotGitHubUser(Err(error)) => EventView::GotGitHubUser(Err(error@)),
            Event::OnTokensLoaded { tokens, suppress_store } => EventView::OnTokensLoaded {
                tokens: tokens@,
                suppress_store: *suppress_store,
            },
        }
    }
}

impl EventView {
    /// Handling the message may send the user to the login page, for which a
    /// fresh `state` parameter is drawn.
    pub open spec fn needs_state(self) -> bool {
        ||| self is LoginButtonClicked
        ||| self is RedirectToLogin
        ||| self matches EventView::GotTokensFromGitHub(Err(_))
        ||| self matches EventView::GotGitHubUser(Err(_))
    }
}

/// Logged where the system gives no entropy for the `state` parameter.
pub const NO_STATE_MESSAGE: &'static str = "no state parameter could be drawn";

/// Logged where the login URL cannot be put together.
pub const NO_LOGIN_URL_MESSAGE: &'static str = "the login URL could not be built";

/// Logged where a token pair has no form in which it can be stored.
pub const NOT_STORED_MESSAGE: &'static str = "the token pair could not be written as bytes";

/// The message of the failure that stands for a token exchange whose expiries
/// are out of range.
pub const EXPIRY_MESSAGE: &'static str = "the expiry of a token is out of range";

/// The year in which the films of the initial content were watched.
pub const DEMO_YEAR: i16 = 2025;

/// A film of the initial content: watched in January of [`DEMO_YEAR`].
pub open spec fn demo_film(title: Seq<char>, rating: Rating) -> WatchedFilmView {
    WatchedFilmView { title, rating, year_watched: DEMO_YEAR as int, month_of_year_watched: 1 }
}

/// The films the model holds after the initial load.
pub open spec fn demo_films() -> Seq<WatchedFilmView> {
    seq![
        demo_film("Frankenstein"@, Rating::Meh),
        demo_film("American Psycho"@, Rating::VeryGood),
        demo_film("The Equalizer 2"@, Rating::Good),
        demo_film("The Equalizer 3"@, Rating::VeryGood),
    ]
}

/// The user that the response of the user lookup describes.
pub open spec fn user_of(user: GitHubAuthenticatedUserResponseView) -> UserInfoView {
    UserInfoView { login: user.login, name: user.name, avatar_url: user.avatar_url }
}

/// A new state of the model and the requests that lead to it, in their order.
pub ghost struct Transition {
    pub model: ModelView,
    pub requests: Seq<RequestView>,
}

impl ModelView {
    /// The model with one more entry in its log.
    pub open spec fn logged(self, level: LogLevel, message: Seq<char>) -> ModelView {
        ModelView {
            services: ServicesView {
                logger: self.services.logger.push(LogEntryView { level, message }),
                ..self.services
            },
            ..self
        }
    }

    /// The start of the lookup of the authenticated user.
    pub open spec fn fetch_user(self) -> Seq<RequestView> {
        seq![RequestView::of_step(GitHubClientView::start(ApiCallView::AuthenticatedUser))]
    }

    /// Writes `tokens` to the store. A pair that has no stored form is logged
    /// and not stored.
    pub open spec fn store_tokens(self, tokens: TokensView) -> Transition {
        match tokens.stored_form() {
            Some(bytes) => Transition {
                model: self,
                requests: seq![
                    RequestView::of(
                        EffectView::KeyValue(
                            KeyValueOperationView::Put { key: TokenStore::key(), value: bytes },
                        ),
                    ),
                ],
            },
            None => Transition {
                model: self.logged(LogLevel::Error, NOT_STORED_MESSAGE@),
                requests: Seq::empty(),
            },
        }
    }

    /// Sends the user to the login page with `state` as the `state` parameter.
    /// Without a `state`, or where the URL cannot be built, nothing is sent
    /// and the reason is logged.
    pub open spec fn redirect_to_login(self, state: Option<Seq<char>>) -> Transition {
        match state {
            Some(state) => match login_url(self.services.config, state) {
                Some(url) => Transition {
                    model: self,
                    requests: seq![RequestView::of(EffectView::Redirect(url))],
                },
                None => Transition {
                    model: self.logged(LogLevel::Error, NO_LOGIN_URL_MESSAGE@),
                    requests: Seq::empty(),
                },
            },
            None => Transition {
                model: self.logged(LogLevel::Error, NO_STATE_MESSAGE@),
                requests: Seq::empty(),
            },
        }
    }

    /// A token pair is at hand: it is stored, unless it came from the store,
    /// and then the user is looked up.
    pub open spec fn on_tokens_loaded(
        self,
        tokens: TokensView,
        suppress_store: bool,
    ) -> Transition {
        if suppress_store {
            Transition { model: self, requests: self.fetch_user() }
        } else {
            let stored = self.store_tokens(tokens);
            Transition { model: stored.model, requests: stored.requests + self.fetch_user() }
        }
    }

    /// The exchange of the authorization code, where there is one.
    pub open spec fn exchange_code(self, code: Option<Seq<char>>) -> Seq<RequestView> {
        match code {
            Some(code) => seq![
                RequestView {
                    effect: EffectView::Http(
                        token_request(self.services.github_client.manager.handler.code_query(code)),
                    ),
                    next: ContinuationView::GotTokensFromGitHub,
                },
            ],
            None => Seq::empty(),
        }
    }

    /// What `msg` changes and requests, before the log is handed over and the
    /// view is rendered.
    pub open spec fn handle(self, msg: EventView, state: Option<Seq<char>>) -> Transition {
        match msg {
            EventView::InitialLoad => Transition {
                model: ModelView { films: demo_films(), ..self },
                requests: self.fetch_user(),
            },
            EventView::LoginButtonClicked => self.redirect_to_login(state),
            EventView::LogoutButtonClicked => Transition {
                model: ModelView { user_info: None, ..self },
                requests: seq![
                    RequestView::of(
                        EffectView::KeyValue(
                            KeyValueOperationView::Delete { key: TokenStore::key() },
                        ),
                    ),
                ],
            },
            EventView::CallbackReceived(url) => Transition {
                model: self,
                requests: self.exchange_code(callback_code(url)),
            },
            EventView::RedirectToLogin => self.redirect_to_login(state),
            EventView::SetTokensInStore(tokens) => self.store_tokens(tokens),
            EventView::GetTokensFromStore => Transition {
                model: self,
                requests: seq![
                    RequestView {
                        effect: EffectView::KeyValue(
                            KeyValueOperationView::Get { key: TokenStore::key() },
                        ),
                        next: ContinuationView::GotTokensFromStore,
                    },
                ],
            },
            EventView::GotTokensFromStore(Some(tokens)) => self.on_tokens_loaded(tokens, true),
            EventView::GotTokensFromStore(None) => Transition {
                model: self,
                requests: Seq::empty(),
            },
            EventView::GetTokensFromGitHub { code } => Transition {
                model: self,
                requests: self.exchange_code(code),
            },
            EventView::GotTokensFromGitHub(Ok(tokens)) => self.on_tokens_loaded(tokens, false),
            EventView::GotTokensFromGitHub(Err(error)) => self.logged(
                LogLevel::Error,
                error,
            ).redirect_to_login(state),
            EventView::GetGithubUser => Transition { model: self, requests: self.fetch_user() },
            EventView::GotGitHubUser(Ok(user)) => Transition {
                model: ModelView { user_info: Some(user_of(user)), ..self },
                requests: Seq::empty(),
            },
            EventView::GotGitHubUser(
                Err(GitHubApiErrorView::ReAuthenticationRequired),
            ) => self.redirect_to_login(state),
            EventView::GotGitHubUser(Err(GitHubApiErrorView::HttpError(error))) => self.logged(
                LogLevel::Error,
                error,
            ).redirect_to_login(state),
            EventView::OnTokensLoaded { tokens, suppress_store } => self.on_tokens_loaded(
                tokens,
                suppress_store,
            ),
        }
    }

    /// The end of every transition: the log, where it has entries, is handed
    /// to the host and emptied, and the view is rendered, once and last.
    pub open spec fn finish(self, requests: Seq<RequestView>) -> Transition {
        if self.services.logger.len() > 0 {
            Transition {
                model: ModelView {
                    services: ServicesView { logger: Seq::empty(), ..self.services },
                    ..self
                },
                requests: requests.push(
                    RequestView::of(EffectView::Log(self.services.logger)),
                ).push(RequestView::of(EffectView::Render)),
            }
        } else {
            Transition { model: self, requests: requests.push(RequestView::of(EffectView::Render)) }
        }
    }

    /// The transition that `msg` causes. `state` is the `state` parameter
    /// drawn for a login redirect, should the transition make one.
    pub open spec fn update(self, msg: EventView, state: Option<Seq<char>>) -> Transition {
        let handled = self.handle(msg, state);
        handled.model.finish(handled.requests)
    }
}

/// A plan without requests.
fn no_requests() -> (r: Vec<Request>)
    ensures
        r.deep_view() == Seq::<RequestView>::empty(),
{
    Vec::new()
}

/// A plan of one request.
fn one_request(request: Request) -> (r: Vec<Request>)
    ensures
        r.deep_view() == seq![request@],
{
    let mut r: Vec<Request> = Vec::new();
    r.push(request);
    r
}

/// Appends `request` to `plan`.
fn push_request(plan: &mut Vec<Request>, request: Request)
    ensures
        final(plan).deep_view() == old(plan).deep_view().push(request@),
{
    plan.push(request);
}

/// Appends the requests of `more` to `plan`.
fn extend_plan(plan: &mut Vec<Request>, more: Vec<Request>)
    ensures
        final(plan).deep_view() == old(plan).deep_view() + more.deep_view(),
{
    let mut more = more;
    plan.append(&mut more);
}

/// The request that carries out `step`.
fn request_of(step: ApiStep) -> (r: Request)
    ensures
        r@ == RequestView::of_step(step@),
{
    match step {
        ApiStep::KeyValue(operation, pending) => Request {
            effect: Effect::KeyValue(operation),
            next: Continuation::GitHub(pending),
        },
        ApiStep::Http(request, pending) => Request {
            effect: Effect::Http(request),
            next: Continuation::GitHub(pending),
        },
        ApiStep::Done(_) => render(),
    }
}

/// A film of the initial content.
fn new_demo_film(title: &str, rating: Rating) -> (r: WatchedFilm)
    ensures
        r@ == demo_film(title@, rating),
{
    WatchedFilm {
        title: owned(title),
        rating,
        year_watched: DEMO_YEAR,
        month_of_year_watched: MonthOfYear::new(1).unwrap(),
    }
}

/// The films of the initial content.
fn new_demo_films() -> (r: Vec<WatchedFilm>)
    ensures
        r.deep_view() == demo_films(),
{
    let mut films: Vec<WatchedFilm> = Vec::new();
    films.push(new_demo_film("Frankenstein", Rating::Meh));
    films.push(new_demo_film("American Psycho", Rating::VeryGood));
    films.push(new_demo_film("The Equalizer 2", Rating::Good));
    films.push(new_demo_film("The Equalizer 3", Rating::VeryGood));
    films
}

impl Model {
    /// The model at startup: no user, no films.
    pub fn new(services: Services) -> (r: Self)
        ensures
            r@ == (ModelView {
                services: services@,
                user_info: None,
                films: Seq::empty(),
            }),
    {
        let films: Vec<WatchedFilm> = Vec::new();
        assert(films.deep_view() =~= Seq::<WatchedFilmView>::empty());
        Model { services, user_info: None, films }
    }

    fn log_error(&mut self, message: String)
        ensures
            final(self)@ == old(self)@.logged(LogLevel::Error, message@),
    {
        self.services.logger.error(message);
    }

    fn fetch_user(&self) -> (r: Vec<Request>)
        ensures
            r.deep_view() == self@.fetch_user(),
    {
        one_request(request_of(self.services.github_client.get_authenticated_user()))
    }

    fn store_tokens(&mut self, tokens: &Tokens) -> (r: Vec<Request>)
        ensures
            final(self)@ == old(self)@.store_tokens(tokens@).model,
            r.deep_view() == old(self)@.store_tokens(tokens@).requests,
    {
        match self.services.token_store.set_tokens(tokens) {
            Some(operation) => one_request(
                Request { effect: Effect::KeyValue(operation), next: Continuation::Nothing },
            ),
            None => {
                self.log_error(owned(NOT_STORED_MESSAGE));
                no_requests()
            },
        }
    }

    fn redirect_to_login(&mut self, state: Option<String>) -> (r: Vec<Request>)
        ensures
            final(self)@ == old(self)@.redirect_to_login(state.deep_view()).model,
            r.deep_view() == old(self)@.redirect_to_login(state.deep_view()).requests,
    {
        match state {
            Some(state) => match build_login_url(&self.services.config.github, state.as_str()) {
                Some(url) => one_request(redirect(url)),
                None => {
                    self.log_error(owned(NO_LOGIN_URL_MESSAGE));
                    no_requests()
                },
            },
            None => {
                self.log_error(owned(NO_STATE_MESSAGE));
                no_requests()
            },
        }
    }

    fn on_tokens_loaded(&mut self, tokens: &Tokens, suppress_store: bool) -> (r: Vec<Request>)
        ensures
            final(self)@ == old(self)@.on_tokens_loaded(tokens@, suppress_store).model,
            r.deep_view() == old(self)@.on_tokens_loaded(tokens@, suppress_store).requests,
    {
        if suppress_store {
            self.fetch_user()
        } else {
            let mut plan = self.store_tokens(tokens);
            extend_plan(&mut plan, self.fetch_user());
            plan
        }
    }

    fn exchange_code(&self, code: Option<String>) -> (r: Vec<Request>)
        ensures
            r.deep_view() == self@.exchange_code(code.deep_view()),
    {
        match code {
            Some(code) => one_request(
                Request {
                    effect: Effect::Http(
                        self.services.github_client.get_access_token_from_code(code.as_str()),
                    ),
                    next: Continuation::GotTokensFromGitHub,
                },
            ),
            None => no_requests(),
        }
    }

    fn handle(&mut self, msg: Event, state: Option<String>) -> (r: Vec<Request>)
        ensures
            final(self)@ == old(self)@.handle(msg@, state.deep_view()).model,
            r.deep_view() == old(self)@.handle(msg@, state.deep_view()).requests,
    {
        match msg {
            Event::InitialLoad => {
                self.films = new_demo_films();
                self.fetch_user()
            },
            Event::LoginButtonClicked => self.redirect_to_login(state),
            Event::LogoutButtonClicked => {
                self.user_info = None;
                one_request(
                    Request {
                        effect: Effect::KeyValue(self.services.token_store.remove_tokens()),
                        next: Continuation::Nothing,
                    },
                )
            },
            Event::CallbackReceived(url) => self.exchange_code(read_callback_code(url.as_str())),
            Event::RedirectToLogin => self.redirect_to_login(state),
            Event::SetTokensInStore(tokens) => self.store_tokens(&tokens),
            Event::GetTokensFromStore => one_request(
                Request {
                    effect: Effect::KeyValue(self.services.token_store.get_tokens()),
                    next: Continuation::GotTokensFromStore,
                },
            ),
            Event::GotTokensFromStore(Some(tokens)) => self.on_tokens_loaded(&tokens, true),
            Event::GotTokensFromStore(None) => no_requests(),
            Event::GetTokensFromGitHub { code } => self.exchange_code(code),
            Event::GotTokensFromGitHub(Ok(tokens)) => self.on_tokens_loaded(&tokens, false),
            Event::GotTokensFromGitHub(Err(error)) => {
                self.log_error(error.message);
                self.redirect_to_login(state)
            },
            Event::GetGithubUser => self.fetch_user(),
            Event::GotGitHubUser(Ok(user)) => {
                self.user_info = Some(
                    UserInfo { login: user.login, name: user.name, avatar_url: user.avatar_url },
                );
                no_requests()
            },
            Event::GotGitHubUser(Err(GitHubApiError::ReAuthenticationRequired)) => {
                self.redirect_to_login(state)
            },
            Event::GotGitHubUser(Err(GitHubApiError::HttpError(error))) => {
                self.log_error(error.message);
                self.redirect_to_login(state)
            },
            Event::OnTokensLoaded { tokens, suppress_store } => self.on_tokens_loaded(
                &tokens,
                suppress_store,
            ),
        }
    }

    fn finish(&mut self, requests: Vec<Request>) -> (r: Vec<Request>)
        ensures
            final(self)@ == old(self)@.finish(requests.deep_view()).model,
            r.deep_view() == old(self)@.finish(requests.deep_view()).requests,
    {
        let mut plan = requests;
        if self.services.logger.len() > 0 {
            let entries = self.services.logger.pop_all();
            push_request(&mut plan, log(entries));
        }
        push_request(&mut plan, render());
        plan
    }
}

/// What the host's reply to a request amounts to.
#[derive(Debug, PartialEq, Eq)]
pub enum Delivery {
    /// The chain that the request belongs to goes on with these requests; no
    /// message has come of it yet.
    Requests(Vec<Request>),
    /// The reply is this message to the reducer.
    Message(Event),
}

/// The mathematical content of a [`Delivery`].
pub ghost enum DeliveryView {
    Requests(Seq<RequestView>),
    Message(EventView),
}

impl View for Delivery {
    type V = DeliveryView;

    open spec fn view(&self) -> DeliveryView {
        match self {
            Delivery::Requests(requests) => DeliveryView::Requests(requests.deep_view()),
            Delivery::Message(msg) => DeliveryView::Message(msg@),
        }
    }
}

/// The token pair that the reply to the exchange of an authorization code
/// gives at `now`, or the failure of the exchange.
pub open spec fn exchanged_tokens(reply: ReplyView, now: Timestamp) -> Result<
    TokensView,
    Seq<char>,
> {
    match reply {
        ReplyView::Exchanged(Ok(response)) => match response.tokens_at(now) {
            Some(tokens) => Ok(tokens),
            None => Err(EXPIRY_MESSAGE@),
        },
        ReplyView::Exchanged(Err(error)) => Err(error),
        _ => Err(unexpected_reply()),
    }
}

/// What `reply`, received at `now` for a request that was to go on with
/// `next`, amounts to. A reply of another kind than the request calls for
/// counts as a failed call.
pub open spec fn delivery(
    client: GitHubClientView,
    next: ContinuationView,
    reply: ReplyView,
    now: Timestamp,
) -> DeliveryView {
    match next {
        ContinuationView::Nothing => DeliveryView::Requests(Seq::empty()),
        ContinuationView::GotTokensFromStore => DeliveryView::Message(
            EventView::GotTokensFromStore(
                TokenStore::stored_tokens(
                    match reply {
                        ReplyView::Stored(stored) => stored,
                        _ => Ok(None),
                    },
                ),
            ),
        ),
        ContinuationView::GotTokensFromGitHub => DeliveryView::Message(
            EventView::GotTokensFromGitHub(exchanged_tokens(reply, now)),
        ),
        ContinuationView::GitHub(pending) => match client.resume(pending, reply, now) {
            ApiStepView::Done(ApiResultView::User(result)) => DeliveryView::Message(
                EventView::GotGitHubUser(result),
            ),
            ApiStepView::Done(ApiResultView::File(_)) => DeliveryView::Requests(Seq::empty()),
            step => DeliveryView::Requests(seq![RequestView::of_step(step)]),
        },
    }
}

/// `state` is absent or fit to be a `state` parameter.
pub open spec fn is_drawn(state: Option<Seq<char>>) -> bool {
    state matches Some(s) ==> is_state(s)
}

/// Handling `msg` in the state `before` may end in the state `after` with the
/// plan `plan`: it does so for some `state` parameter that may be drawn.
pub open spec fn updates(
    before: ModelView,
    msg: EventView,
    after: ModelView,
    plan: Seq<RequestView>,
) -> bool {
    exists|state: Option<Seq<char>>|
        is_drawn(state) && #[trigger] before.update(msg, state) == (Transition {
            model: after,
            requests: plan,
        })
}

/// Taking up `next` with `reply` in the state `before` may end in the state
/// `after` with the plan `plan`: it does so for some instant at which the reply
/// is received.
pub open spec fn resumes(
    before: ModelView,
    next: ContinuationView,
    reply: ReplyView,
    after: ModelView,
    plan: Seq<RequestView>,
) -> bool {
    exists|now: Timestamp|
        now.wf() && match #[trigger] delivery(before.services.github_client, next, reply, now) {
            DeliveryView::Requests(requests) => after == before && plan == requests,
            DeliveryView::Message(msg) => updates(before, msg, after, plan),
        }
}

/// The reducer.
#[derive(Clone, Copy, Debug, PartialEq, Eq, Structural)]
pub struct App;

impl Default for App {
    fn default() -> (r: Self)
        ensures
            r == App,
    {
        App
    }
}

impl App {
    /// Whether handling `msg` may send the user to the login page.
    pub fn needs_state(msg: &Event) -> (r: bool)
        ensures
            r == msg@.needs_state(),
    {
        match msg {
            Event::LoginButtonClicked => true,
            Event::RedirectToLogin => true,
            Event::GotTokensFromGitHub(Err(_)) => true,
            Event::GotGitHubUser(Err(_)) => true,
            _ => false,
        }
    }

    /// Handles `msg` with `state` as the `state` parameter of a login
    /// redirect, should one be made: changes `model` and returns the requests
    /// to the host in the order in which they are to be carried out.
    pub fn update_with(&self, msg: Event, model: &mut Model, state: Option<String>) -> (plan: Vec<
        Request,
    >)
        ensures
            old(model)@.update(msg@, state.deep_view()) == (Transition {
                model: final(model)@,
                requests: plan.deep_view(),
            }),
    {
        let requests = model.handle(msg, state);
        model.finish(requests)
    }

    /// Handles `msg`: changes `model` and returns the requests to the host in
    /// the order in which they are to be carried out. Where the message may
    /// lead to the login page a fresh `state` parameter is drawn.
    pub fn update(&self, msg: Event, model: &mut Model) -> (plan: Vec<Request>)
        ensures
            updates(old(model)@, msg@, final(model)@, plan.deep_view()),
            !msg@.needs_state() ==> old(model)@.update(msg@, None) == (Transition {
                model: final(model)@,
                requests: plan.deep_view(),
            }),
    {
        let state = if Self::needs_state(&msg) {
            fresh_state()
        } else {
            None
        };
        self.update_with(msg, model, state)
    }

    /// Works out what `reply`, received at `now` for a request that was to go
    /// on with `next`, amounts to.
    pub fn deliver(&self, model: &Model, next: Continuation, reply: Reply, now: Timestamp) -> (r:
        Delivery)
        ensures
            r@ == delivery(model@.services.github_client, next@, reply@, now),
    {
        match next {
            Continuation::Nothing => Delivery::Requests(no_requests()),
            Continuation::GotTokensFromStore => {
                let stored = match reply {
                    Reply::Stored(stored) => stored,
                    _ => Ok(None),
                };
                Delivery::Message(
                    Event::GotTokensFromStore(
                        model.services.token_store.tokens_from_reply(stored),
                    ),
                )
            },
            Continuation::GotTokensFromGitHub => {
                let tokens = match reply {
                    Reply::Exchanged(HttpResult::Success(response)) => match Tokens::from_response(
                        response,
                        now,
                    ) {
                        Some(tokens) => Ok(tokens),
                        None => Err(HttpError { message: owned(EXPIRY_MESSAGE) }),
                    },
                    Reply::Exchanged(HttpResult::Failure(error)) => Err(error),
                    _ => Err(HttpError { message: owned("unexpected reply") }),
                };
                Delivery::Message(Event::GotTokensFromGitHub(tokens))
            },
            Continuation::GitHub(pending) => {
                match model.services.github_client.resume(pending, reply, now) {
                    ApiStep::Done(ApiResult::User(result)) => Delivery::Message(
                        Event::GotGitHubUser(result),
                    ),
                    ApiStep::Done(ApiResult::File(_)) => Delivery::Requests(no_requests()),
                    step => Delivery::Requests(one_request(request_of(step))),
                }
            },
        }
    }

    /// Takes up `next` with the host's `reply`: a chain of calls goes one step
    /// further, and a reply that is a message is handled as
    /// [`App::update`] handles it. The reply counts as received at the
    /// current instant of the system clock.
    pub fn resume(&self, next: Continuation, reply: Reply, model: &mut Model) -> (plan: Vec<
        Request,
    >)
        ensures
            resumes(old(model)@, next@, reply@, final(model)@, plan.deep_view()),
    {
        let now = Timestamp::now();
        match self.deliver(model, next, reply, now) {
            Delivery::Requests(requests) => requests,
            Delivery::Message(msg) => self.update(msg, model),
        }
    }

    /// The snapshot of `model` for the user interface.
    pub fn view(&self, model: &Model) -> (r: ViewModel)
        ensures
            r@ == (ViewModelView { films: model@.films, user_info: model@.user_info }),
    {
        let films = model.films.clone();
        let user_info = match &model.user_info {
            Some(user) => Some(user.clone()),
            None => None,
        };
        ViewModel { films, user_info }
    }
}

/// Every transition asks for exactly one render, as the last request of its
/// plan, and leaves the log empty.
pub proof fn lemma_render_is_requested_once_and_last(
    model: ModelView,
    msg: EventView,
    state: Option<Seq<char>>,
)
    ensures
        ({
            let plan = model.update(msg, state).requests;
            &&& plan.len() > 0
            &&& plan.last() == RequestView::of(EffectView::Render)
            &&& forall|i: int| 0 <= i < plan.len() - 1 ==> !((#[trigger] plan[i]).effect is Render)
        }),
        model.update(msg, state).model.services.logger.len() == 0,
{
}

/// A click on the login button, with a `state` drawn and a URL built, asks for
/// exactly one redirect, to that URL, and changes nothing.
pub proof fn lemma_login_click_redirects_once(model: ModelView, state: Seq<char>, url: Seq<char>)
    requires
        model.services.logger.len() == 0,
        login_url(model.services.config, state) == Some(url),
    ensures
        model.update(EventView::LoginButtonClicked, Some(state)) == (Transition {
            model,
            requests: seq![
                RequestView::of(EffectView::Redirect(url)),
                RequestView::of(EffectView::Render),
            ],
        }),
{
    let plan = model.update(EventView::LoginButtonClicked, Some(state)).requests;
    assert(plan =~= seq![
        RequestView::of(EffectView::Redirect(url)),
        RequestView::of(EffectView::Render),
    ]);
}

/// A callback URL that carries a code asks for the exchange of exactly that
/// code; one that carries none asks for a render and nothing else. Neither
/// changes the model.
pub proof fn lemma_callback_exchanges_its_code(
    model: ModelView,
    url: Seq<char>,
    state: Option<Seq<char>>,
)
    requires
        model.services.logger.len() == 0,
    ensures
        model.update(EventView::CallbackReceived(url), state).model == model,
        model.update(EventView::CallbackReceived(url), state).requests == (match callback_code(
            url,
        ) {
            Some(code) => seq![
                RequestView {
                    effect: EffectView::Http(
                        token_request(
                            model.services.github_client.manager.handler.code_query(code),
                        ),
                    ),
                    next: ContinuationView::GotTokensFromGitHub,
                },
                RequestView::of(EffectView::Render),
            ],
            None => seq![RequestView::of(EffectView::Render)],
        }),
{
}

/// A token pair that came from the store is not written to it: the plan is the
/// lookup of the user and the render. A pair from an exchange is written
/// exactly once, as the first request, before the lookup of the user.
pub proof fn lemma_loaded_tokens_are_stored_unless_suppressed(
    model: ModelView,
    tokens: TokensView,
    suppress_store: bool,
    state: Option<Seq<char>>,
)
    requires
        model.services.logger.len() == 0,
        !suppress_store ==> tokens.stored_form() is Some,
    ensures
        model.update(EventView::OnTokensLoaded { tokens, suppress_store }, state).model == model,
        model.update(EventView::OnTokensLoaded { tokens, suppress_store }, state).requests == (
        if suppress_store {
            seq![
                RequestView::of_step(GitHubClientView::start(ApiCallView::AuthenticatedUser)),
                RequestView::of(EffectView::Render),
            ]
        } else {
            seq![
                RequestView::of(
                    EffectView::KeyValue(
                        KeyValueOperationView::Put {
                            key: TokenStore::key(),
                            value: tokens.stored_form().unwrap(),
                        },
                    ),
                ),
                RequestView::of_step(GitHubClientView::start(ApiCallView::AuthenticatedUser)),
                RequestView::of(EffectView::Render),
            ]
        }),
{
}

} // verus!
