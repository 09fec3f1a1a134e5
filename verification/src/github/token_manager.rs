//! The token manager: one request for an access token is a chain of at most
//! three calls to the host, of which at most one goes over the network.

use crate::github::auth::{exchange_view, token_request, GitHubAccessTokenResponse,
    GitHubAccessTokenResponseView, GitHubAuthenticationHandler, GitHubAuthenticationHandlerView};
use crate::http::{HttpError, HttpRequest, HttpRequestView, HttpResult};
use crate::key_value::{KeyValueError, KeyValueOperation, KeyValueOperationView};
use crate::time::Timestamp;
use crate::tokens::{reply_view, Token, TokenStore, TokenView, Tokens, TokensView};
use vstd::prelude::*;

verus! {

/// Keeps an access token valid: hands out the stored one while it is accepted
/// and exchanges the refresh token for a new pair once it is not.
///
/// One request for an access token is a chain of at most three calls to the
/// host. Each method below takes the reply to the previous call and says what
/// comes next.
#[derive(Debug, PartialEq, Eq)]
pub struct GitHubTokenManager {
    token_store: TokenStore,
    github_auth_handler: GitHubAuthenticationHandler,
}

/// The mathematical content of a [`GitHubTokenManager`].
pub ghost struct GitHubTokenManagerView {
    pub handler: GitHubAuthenticationHandlerView,
}

impl View for GitHubTokenManager {
    type V = GitHubTokenManagerView;

    closed spec fn view(&self) -> GitHubTokenManagerView {
        GitHubTokenManagerView { handler: self.github_auth_handler@ }
    }
}

impl Clone for GitHubTokenManager {
    fn clone(&self) -> (r: Self)
        ensures
            r == *self,
    {
        GitHubTokenManager {
            token_store: self.token_store,
            github_auth_handler: self.github_auth_handler.clone(),
        }
    }
}

/// What a request for an access token does next.
#[derive(Debug, PartialEq, Eq)]
pub enum TokenStep {
    /// Write the loaded pair back to the store, then go on with it.
    Persist(KeyValueOperation, Tokens),
    /// Exchange the refresh token for a new pair.
    Refresh(HttpRequest),
    /// The request is answered: an access token, or none, in which case the
    /// user has to authenticate again.
    Done(Option<Token>),
}

/// The mathematical content of a [`TokenStep`].
pub ghost enum TokenStepView {
    Persist(KeyValueOperationView, TokensView),
    Refresh(HttpRequestView),
    Done(Option<TokenView>),
}

impl View for TokenStep {
    type V = TokenStepView;

    open spec fn view(&self) -> TokenStepView {
        match self {
            TokenStep::Persist(operation, tokens) => TokenStepView::Persist(operation@, tokens@),
            TokenStep::Refresh(request) => TokenStepView::Refresh(request@),
            TokenStep::Done(token) => TokenStepView::Done(token.deep_view()),
        }
    }
}

impl GitHubTokenManagerView {
    /// The first call of every request: read the stored pair.
    pub open spec fn load() -> KeyValueOperationView {
        KeyValueOperationView::Get { key: TokenStore::key() }
    }

    /// The step after the store has replied to the read. Without a stored pair
    /// there is no token. A stored pair is written back as it was read, and
    /// where it has no stored form the request goes on without the write.
    pub open spec fn after_load(
        self,
        reply: Result<Option<Seq<u8>>, Seq<char>>,
        now: Timestamp,
    ) -> TokenStepView {
        match TokenStore::stored_tokens(reply) {
            None => TokenStepView::Done(None),
            Some(tokens) => match tokens.stored_form() {
                Some(bytes) => TokenStepView::Persist(
                    KeyValueOperationView::Put { key: TokenStore::key(), value: bytes },
                    tokens,
                ),
                None => self.after_persist(tokens, now),
            },
        }
    }

    /// The step once the loaded pair is written back: the access token while
    /// it is accepted at `now`; else one exchange of the refresh token while
    /// that is accepted; else no token.
    pub open spec fn after_persist(self, tokens: TokensView, now: Timestamp) -> TokenStepView {
        if tokens.access_token.valid_at(now) {
            TokenStepView::Done(Some(tokens.access_token))
        } else if tokens.refresh_token.valid_at(now) {
            TokenStepView::Refresh(
                token_request(self.handler.refresh_query(tokens.refresh_token.access_token)),
            )
        } else {
            TokenStepView::Done(None)
        }
    }

    /// The answer once the exchange has replied at `now`: the access token of
    /// the new pair, or none where the exchange failed.
    pub open spec fn after_refresh(
        reply: Result<GitHubAccessTokenResponseView, Seq<char>>,
        now: Timestamp,
    ) -> Option<TokenView> {
        match reply {
            Ok(response) => match response.tokens_at(now) {
                Some(tokens) => Some(tokens.access_token),
                None => None,
            },
            Err(_) => None,
        }
    }
}

impl GitHubTokenManager {
    /// A manager that keeps its pair in `token_store` and refreshes it through
    /// `github_auth_handler`.
    pub fn new(token_store: TokenStore, github_auth_handler: GitHubAuthenticationHandler) -> (r:
        Self)
        ensures
            r@.handler == github_auth_handler@,
    {
        Self { token_store, github_auth_handler }
    }

    /// Starts a request for an access token: the read of the stored pair.
    pub fn get_access_token(&self) -> (r: KeyValueOperation)
        ensures
            r@ == GitHubTokenManagerView::load(),
    {
        self.token_store.get_tokens()
    }

    /// Goes on after the store has replied to the read.
    pub fn on_loaded(
        &self,
        reply: Result<Option<Vec<u8>>, KeyValueError>,
        now: Timestamp,
    ) -> (r: TokenStep)
        ensures
            r@ == self@.after_load(reply_view(reply), now),
    {
        match self.token_store.tokens_from_reply(reply) {
            None => TokenStep::Done(None),
            Some(tokens) => match self.token_store.set_tokens(&tokens) {
                Some(operation) => TokenStep::Persist(operation, tokens),
                None => self.on_persisted(tokens, now),
            },
        }
    }

    /// Goes on once the loaded pair is written back.
    pub fn on_persisted(&self, tokens: Tokens, now: Timestamp) -> (r: TokenStep)
        ensures
            r@ == self@.after_persist(tokens@, now),
    {
        if tokens.access_token.is_valid_at(now) {
            TokenStep::Done(Some(tokens.access_token))
        } else if tokens.refresh_token.is_valid_at(now) {
            TokenStep::Refresh(
                self.github_auth_handler.get_access_token_from_refresh_token(
                    tokens.refresh_token.access_token.as_str(),
                ),
            )
        } else {
            TokenStep::Done(None)
        }
    }

    /// Answers the request once the exchange has replied at `now`. The new
    /// pair is not written to the store here.
    pub fn on_refreshed(
        &self,
        reply: HttpResult<GitHubAccessTokenResponse, HttpError>,
        now: Timestamp,
    ) -> (r: Option<Token>)
        ensures
            r.deep_view() == GitHubTokenManagerView::after_refresh(exchange_view(reply), now),
    {
        match reply {
            HttpResult::Success(response) => match Tokens::from_response(response, now) {
                Some(tokens) => Some(tokens.access_token),
                None => None,
            },
            HttpResult::Failure(_) => None,
        }
    }

    /// The request that exchanges the authorization code `code`.
    pub fn get_access_token_from_code(&self, code: &str) -> (r: HttpRequest)
        ensures
            r@ == token_request(self@.handler.code_query(code@)),
    {
        self.github_auth_handler.get_access_token_from_code(code)
    }
}

/// A call that a request for an access token makes to the host.
pub ghost enum Call {
    KeyValue(KeyValueOperationView),
    Http(HttpRequestView),
}

/// The HTTP requests among `calls`, in their order.
pub open spec fn network_calls(calls: Seq<Call>) -> Seq<HttpRequestView>
    decreases calls.len(),
{
    if calls.len() == 0 {
        Seq::empty()
    } else {
        let before = network_calls(calls.drop_last());
        match calls.last() {
            Call::Http(request) => before.push(request),
            Call::KeyValue(_) => before,
        }
    }
}

/// `call` changes what the store holds.
pub open spec fn is_store_write(call: Call) -> bool {
    call matches Call::KeyValue(operation) && operation.is_write()
}

/// What the host answers during one request for an access token.
pub ghost struct Host {
    /// The reply of the store to the read.
    pub stored: Result<Option<Seq<u8>>, Seq<char>>,
    /// The instant at which the loaded pair is examined.
    pub checked_at: Timestamp,
    /// The reply to the exchange of the refresh token, should one be sent.
    pub exchange: Result<GitHubAccessTokenResponseView, Seq<char>>,
    /// The instant at which that reply arrives.
    pub received_at: Timestamp,
}

/// How one request for an access token ends.
pub ghost struct Outcome {
    /// The answer.
    pub token: Option<TokenView>,
    /// The calls made to the host, in their order.
    pub calls: Seq<Call>,
}

impl GitHubTokenManagerView {
    /// The end of a request that has made `calls` and now takes `step`, which
    /// is not a write to the store.
    pub open spec fn finish(self, step: TokenStepView, host: Host, calls: Seq<Call>) -> Outcome {
        match step {
            TokenStepView::Refresh(request) => Outcome {
                token: Self::after_refresh(host.exchange, host.received_at),
                calls: calls.push(Call::Http(request)),
            },
            TokenStepView::Done(token) => Outcome { token, calls },
            TokenStepView::Persist(_, _) => Outcome { token: None, calls },
        }
    }

    /// One whole request for an access token against `host`: the steps of
    /// [`GitHubTokenManager`] in their order, each fed the host's reply.
    pub open spec fn outcome(self, host: Host) -> Outcome {
        let read = Call::KeyValue(Self::load());
        match self.after_load(host.stored, host.checked_at) {
            TokenStepView::Persist(write, tokens) => self.finish(
                self.after_persist(tokens, host.checked_at),
                host,
                seq![read, Call::KeyValue(write)],
            ),
            step => self.finish(step, host, seq![read]),
        }
    }
}

/// With no pair in the store the answer is "no token", and the read of the
/// store is the only call.
pub proof fn lemma_empty_store_yields_no_token(manager: GitHubTokenManagerView, host: Host)
    requires
        TokenStore::stored_tokens(host.stored) is None,
    ensures
        manager.outcome(host).token is None,
        manager.outcome(host).calls == seq![Call::KeyValue(GitHubTokenManagerView::load())],
{
}

/// A stored pair whose access token is accepted answers the request with that
/// access token, and no HTTP request is sent.
pub proof fn lemma_valid_access_token_is_returned(manager: GitHubTokenManagerView, host: Host)
    requires
        TokenStore::stored_tokens(host.stored) matches Some(tokens)
            && tokens.access_token.valid_at(host.checked_at),
    ensures
        manager.outcome(host).token == Some(
            TokenStore::stored_tokens(host.stored).unwrap().access_token,
        ),
        network_calls(manager.outcome(host).calls).len() == 0,
{
    lemma_network_calls_of_store_calls(manager, host);
}

/// A stored pair whose access token has expired and whose refresh token is
/// accepted sends exactly one HTTP request, the exchange of that refresh
/// token, and answers with the access token of the new pair; where the
/// exchange fails the answer is "no token".
pub proof fn lemma_expired_access_token_is_refreshed_once(
    manager: GitHubTokenManagerView,
    host: Host,
)
    requires
        TokenStore::stored_tokens(host.stored) matches Some(tokens)
            && !tokens.access_token.valid_at(host.checked_at)
            && tokens.refresh_token.valid_at(host.checked_at),
    ensures
        network_calls(manager.outcome(host).calls) == seq![
            token_request(
                manager.handler.refresh_query(
                    TokenStore::stored_tokens(host.stored).unwrap().refresh_token.access_token,
                ),
            ),
        ],
        manager.outcome(host).token == GitHubTokenManagerView::after_refresh(
            host.exchange,
            host.received_at,
        ),
        host.exchange matches Ok(response) ==> (response.tokens_at(host.received_at) matches Some(
            fresh,
        ) ==> manager.outcome(host).token == Some(fresh.access_token)),
{
    lemma_network_calls_of_store_calls(manager, host);
}

/// A stored pair whose tokens have both expired answers "no token", and no
/// HTTP request is sent.
pub proof fn lemma_expired_pair_yields_no_token(manager: GitHubTokenManagerView, host: Host)
    requires
        TokenStore::stored_tokens(host.stored) matches Some(tokens)
            && !tokens.access_token.valid_at(host.checked_at)
            && !tokens.refresh_token.valid_at(host.checked_at),
    ensures
        manager.outcome(host).token is None,
        network_calls(manager.outcome(host).calls).len() == 0,
{
    lemma_network_calls_of_store_calls(manager, host);
}

/// The exchange of the refresh token is sent at most once in a request, and
/// only as its last call.
pub proof fn lemma_at_most_one_exchange(manager: GitHubTokenManagerView, host: Host)
    ensures
        network_calls(manager.outcome(host).calls).len() <= 1,
        network_calls(manager.outcome(host).calls).len() == 1 ==> manager.outcome(
            host,
        ).calls.last() is Http,
{
    lemma_network_calls_of_store_calls(manager, host);
}

/// The only write of a request puts the loaded pair back as it was read. A
/// pair that comes from an exchange is not written by the manager: that is
/// left to the one who asked for the token.
pub proof fn lemma_only_the_loaded_pair_is_written(manager: GitHubTokenManagerView, host: Host)
    ensures
        forall|i: int|
            0 <= i < manager.outcome(host).calls.len() && is_store_write(
                #[trigger] manager.outcome(host).calls[i],
            ) ==> i == 1 && TokenStore::stored_tokens(host.stored) is Some
                && manager.outcome(host).calls[i] == Call::KeyValue(
                KeyValueOperationView::Put {
                    key: TokenStore::key(),
                    value: TokenStore::stored_tokens(host.stored).unwrap().stored_form().unwrap(),
                },
            ),
{
}

/// The calls before the last one of a request go to the store.
proof fn lemma_network_calls_of_store_calls(manager: GitHubTokenManagerView, host: Host)
    ensures
        ({
            let calls = manager.outcome(host).calls;
            network_calls(calls) == match calls.last() {
                Call::Http(request) => seq![request],
                Call::KeyValue(_) => Seq::<HttpRequestView>::empty(),
            }
        }),
{
    reveal_with_fuel(network_calls, 4);
}

} // verus!
