//! The services the reducer works with, built once from the configuration.

use crate::config::{Configuration, GitHubConfigurationView};
use crate::github::{GitHubAuthenticationHandlerView, GitHubClient, GitHubClientView,
    GitHubTokenManagerView};
use crate::logging::{LogEntryView, Logger};
use crate::tokens::TokenStore;
use vstd::prelude::*;

verus! {

/// The base URL of the GitHub API.
pub const GITHUB_API_URL: &'static str = "https://api.github.com";

/// The clients and the configuration that the reducer uses.
#[derive(Debug, PartialEq, Eq)]
pub struct Services {
    pub github_client: GitHubClient,
    pub token_store: TokenStore,
    pub logger: Logger,
    pub config: Configuration,
}

/// The mathematical content of [`Services`].
pub ghost struct ServicesView {
    pub github_client: GitHubClientView,
    pub logger: Seq<LogEntryView>,
    pub config: GitHubConfigurationView,
}

impl View for Services {
    type V = ServicesView;

    open spec fn view(&self) -> ServicesView {
        ServicesView {
            github_client: self.github_client@,
            logger: self.logger@,
            config: self.config@,
        }
    }
}

impl ServicesView {
    /// The services that `config` gives rise to: a client of the GitHub API
    /// with the configured registration, and an empty log.
    pub open spec fn configured(config: GitHubConfigurationView) -> ServicesView {
        ServicesView {
            github_client: GitHubClientView {
                base_url: GITHUB_API_URL@,
                manager: GitHubTokenManagerView {
                    handler: GitHubAuthenticationHandlerView {
                        client_id: config.client_id,
                        client_secret: config.client_secret,
                        redirect_uri: config.redirect_uri,
                    },
                },
            },
            logger: Seq::empty(),
            config,
        }
    }
}

impl Services {
    /// Builds the services from the configuration.
    pub fn new(config: Configuration) -> (r: Self)
        ensures
            r@ == ServicesView::configured(config@),
    {
        let token_store = TokenStore;
        let github_client = GitHubClient::new(
            token_store,
            GITHUB_API_URL,
            config.github.client_id.as_str(),
            config.github.client_secret.as_str(),
            config.github.redirect_uri.as_str(),
        );
        Self { github_client, token_store, logger: Logger::new(), config }
    }
}

} // verus!
