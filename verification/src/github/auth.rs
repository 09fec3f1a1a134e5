//! The token exchange: the request that trades an authorization code or a
//! refresh token for a token pair, and the pair that the response stands for.

use crate::http::{no_pairs, push_pair, Expect, HttpError, HttpMethod, HttpRequest,
    HttpRequestView, HttpResult, Pairs};
use crate::text::owned;
use crate::time::Timestamp;
use crate::tokens::{Token, TokenView, Tokens, TokensView};
use vstd::prelude::*;

verus! {

/// Media type of a raw file body.
pub const GITHUB_RAW_MEDIA_TYPE_NAME: &'static str = "application/vnd.github.raw+json";

/// Media type of a structured JSON body.
pub const GITHUB_JSON_MEDIA_TYPE_NAME: &'static str = "application/vnd.github+json";

/// The endpoint that exchanges a code or a refresh token for a token pair.
pub const GITHUB_ACCESS_TOKEN_URL: &'static str = "https://github.com/login/oauth/access_token";

/// The body of a successful token exchange.
#[derive(Debug, PartialEq, Eq)]
pub struct GitHubAccessTokenResponse {
    pub access_token: String,
    pub token_type: String,
    pub scope: String,
    /// Seconds from receipt until the access token expires.
    pub expires_in: u64,
    pub refresh_token: String,
    /// Seconds from receipt until the refresh token expires.
    pub refresh_token_expires_in: u64,
}

/// The mathematical content of a [`GitHubAccessTokenResponse`].
pub ghost struct GitHubAccessTokenResponseView {
    pub access_token: Seq<char>,
    pub token_type: Seq<char>,
    pub scope: Seq<char>,
    pub expires_in: u64,
    pub refresh_token: Seq<char>,
    pub refresh_token_expires_in: u64,
}

impl View for GitHubAccessTokenResponse {
    type V = GitHubAccessTokenResponseView;

    open spec fn view(&self) -> GitHubAccessTokenResponseView {
        GitHubAccessTokenResponseView {
            access_token: self.access_token@,
            token_type: self.token_type@,
            scope: self.scope@,
            expires_in: self.expires_in,
            refresh_token: self.refresh_token@,
            refresh_token_expires_in: self.refresh_token_expires_in,
        }
    }
}

impl GitHubAccessTokenResponseView {
    /// The pair that a response received at `now` stands for: each token
    /// expires its number of seconds after `now`. There is no pair where an
    /// expiry lies outside the range of instants.
    pub open spec fn tokens_at(self, now: Timestamp) -> Option<TokensView> {
        match (
            now.plus_seconds(self.expires_in as nat),
            now.plus_seconds(self.refresh_token_expires_in as nat),
        ) {
            (Some(access_expiry), Some(refresh_expiry)) => Some(
                TokensView {
                    access_token: TokenView {
                        token_type: self.token_type,
                        access_token: self.access_token,
                        expires_at: access_expiry,
                    },
                    refresh_token: TokenView {
                        token_type: self.token_type,
                        access_token: self.refresh_token,
                        expires_at: refresh_expiry,
                    },
                },
            ),
            _ => None,
        }
    }
}

impl Tokens {
    /// The pair that `value`, received at `now`, stands for. Expiries count
    /// from the receipt of the response, not from the request.
    pub fn from_response(value: GitHubAccessTokenResponse, now: Timestamp) -> (r: Option<Tokens>)
        ensures
            r.deep_view() == value@.tokens_at(now),
    {
        let access_expiry = now.checked_add_seconds(value.expires_in);
        let refresh_expiry = now.checked_add_seconds(value.refresh_token_expires_in);
        match (access_expiry, refresh_expiry) {
            (Some(access_expiry), Some(refresh_expiry)) => Some(
                Tokens {
                    access_token: Token::new(
                        value.token_type.clone(),
                        value.access_token,
                        access_expiry,
                    ),
                    refresh_token: Token::new(
                        value.token_type,
                        value.refresh_token,
                        refresh_expiry,
                    ),
                },
            ),
            _ => None,
        }
    }
}

/// The reply to a token exchange, as mathematical content.
pub open spec fn exchange_view(
    reply: HttpResult<GitHubAccessTokenResponse, HttpError>,
) -> Result<GitHubAccessTokenResponseView, Seq<char>> {
    match reply {
        HttpResult::Success(response) => Ok(response@),
        HttpResult::Failure(error) => Err(error@),
    }
}

/// Exchanges an authorization code or a refresh token for a token pair.
#[derive(Debug, PartialEq, Eq)]
pub struct GitHubAuthenticationHandler {
    client_id: String,
    client_secret: String,
    redirect_uri: String,
}

/// The mathematical content of a [`GitHubAuthenticationHandler`].
pub ghost struct GitHubAuthenticationHandlerView {
    pub client_id: Seq<char>,
    pub client_secret: Seq<char>,
    pub redirect_uri: Seq<char>,
}

impl View for GitHubAuthenticationHandler {
    type V = GitHubAuthenticationHandlerView;

    closed spec fn view(&self) -> GitHubAuthenticationHandlerView {
        GitHubAuthenticationHandlerView {
            client_id: self.client_id@,
            client_secret: self.client_secret@,
            redirect_uri: self.redirect_uri@,
        }
    }
}

impl Clone for GitHubAuthenticationHandler {
    fn clone(&self) -> (r: Self)
        ensures
            r == *self,
    {
        GitHubAuthenticationHandler {
            client_id: self.client_id.clone(),
            client_secret: self.client_secret.clone(),
            redirect_uri: self.redirect_uri.clone(),
        }
    }
}

/// The request that every token exchange sends: a `POST` to the token
/// endpoint that asks for a JSON body and carries `query`.
pub open spec fn token_request(query: Pairs) -> HttpRequestView {
    HttpRequestView {
        method: HttpMethod::Post,
        url: GITHUB_ACCESS_TOKEN_URL@,
        headers: seq![("Accept"@, GITHUB_JSON_MEDIA_TYPE_NAME@)],
        query,
        expect: Expect::AccessTokens,
    }
}

impl GitHubAuthenticationHandlerView {
    /// The query of the exchange of an authorization code.
    pub open spec fn code_query(self, code: Seq<char>) -> Pairs {
        seq![
            ("client_id"@, self.client_id),
            ("client_secret"@, self.client_secret),
            ("redirect_uri"@, self.redirect_uri),
            ("code"@, code),
        ]
    }

    /// The query of the exchange of a refresh token.
    pub open spec fn refresh_query(self, refresh_token: Seq<char>) -> Pairs {
        seq![
            ("client_id"@, self.client_id),
            ("client_secret"@, self.client_secret),
            ("grant_type"@, "refresh_token"@),
            ("refresh_token"@, refresh_token),
        ]
    }
}

impl GitHubAuthenticationHandler {
    /// A handler for the application registered under `client_id`.
    pub fn new(client_id: &str, client_secret: &str, redirect_uri: &str) -> (r: Self)
        ensures
            r@ == (GitHubAuthenticationHandlerView {
                client_id: client_id@,
                client_secret: client_secret@,
                redirect_uri: redirect_uri@,
            }),
    {
        Self {
            client_id: owned(client_id),
            client_secret: owned(client_secret),
            redirect_uri: owned(redirect_uri),
        }
    }

    /// The request that exchanges the authorization code `code`.
    pub fn get_access_token_from_code(&self, code: &str) -> (r: HttpRequest)
        ensures
            r@ == token_request(self@.code_query(code@)),
    {
        let mut query = no_pairs();
        push_pair(&mut query, "client_id", self.client_id.as_str());
        push_pair(&mut query, "client_secret", self.client_secret.as_str());
        push_pair(&mut query, "redirect_uri", self.redirect_uri.as_str());
        push_pair(&mut query, "code", code);
        assert(query.deep_view() =~= self@.code_query(code@));
        self.get_access_token(query)
    }

    /// The request that exchanges the refresh token `refresh_token`.
    pub fn get_access_token_from_refresh_token(&self, refresh_token: &str) -> (r: HttpRequest)
        ensures
            r@ == token_request(self@.refresh_query(refresh_token@)),
    {
        let mut query = no_pairs();
        push_pair(&mut query, "client_id", self.client_id.as_str());
        push_pair(&mut query, "client_secret", self.client_secret.as_str());
        push_pair(&mut query, "grant_type", "refresh_token");
        push_pair(&mut query, "refresh_token", refresh_token);
        assert(query.deep_view() =~= self@.refresh_query(refresh_token@));
        self.get_access_token(query)
    }

    /// The token exchange with the given query parameters.
    pub fn get_access_token(&self, query: Vec<(String, String)>) -> (r: HttpRequest)
        ensures
            r@ == token_request(query.deep_view()),
    {
        let mut headers = no_pairs();
        push_pair(&mut headers, "Accept", GITHUB_JSON_MEDIA_TYPE_NAME);
        HttpRequest {
            method: HttpMethod::Post,
            url: owned(GITHUB_ACCESS_TOKEN_URL),
            headers,
            query,
            expect: Expect::AccessTokens,
        }
    }
}

} // verus!
