//! GitHub as the identity provider and API: the token exchange, the token
//! manager that keeps an access token valid, and the authenticated client.

pub mod auth;
pub mod client;
pub mod token_manager;

pub use auth::{exchange_view, token_request, GitHubAccessTokenResponse,
    GitHubAccessTokenResponseView, GitHubAuthenticationHandler, GitHubAuthenticationHandlerView,
    GITHUB_ACCESS_TOKEN_URL, GITHUB_JSON_MEDIA_TYPE_NAME, GITHUB_RAW_MEDIA_TYPE_NAME};
pub use client::{failed, response, unexpected_reply, ApiCall, ApiCallView, ApiResult,
    ApiResultView, ApiStep, ApiStepView, GitHubApiError, GitHubApiErrorView,
    GitHubAuthenticatedUserResponse, GitHubAuthenticatedUserResponseView, GitHubClient,
    GitHubClientView, PendingCall, PendingCallView, Reply, ReplyView, Stage, StageView};
pub use token_manager::{is_store_write, lemma_at_most_one_exchange, lemma_empty_store_yields_no_token,
    lemma_expired_access_token_is_refreshed_once, lemma_expired_pair_yields_no_token,
    lemma_only_the_loaded_pair_is_written,
    lemma_valid_access_token_is_returned, network_calls, Call, GitHubTokenManager,
    GitHubTokenManagerView, Host, Outcome, TokenStep, TokenStepView};
