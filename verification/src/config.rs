//! The configuration the services are built from.

use vstd::prelude::*;

verus! {

/// The text that the TOML document `text` gives to `key` in the table
/// `table`, where the document is valid, has that table, and the table gives
/// the key a string.
pub uninterp spec fn toml_string(text: Seq<char>, table: Seq<char>, key: Seq<char>) -> Option<
    Seq<char>,
>;

/// Parses `text` as a `toml::Table`, looks `table` up with `Table::get` and
/// `key` in it with `Value::get`, and takes the string with `Value::as_str`.
/// The result is `None` where any of the four gives nothing; otherwise it is
/// given the name [`toml_string`].
#[verifier::external_body]
fn read_string(text: &str, table: &str, key: &str) -> (r: Option<String>)
    ensures
        r.deep_view() == toml_string(text@, table@, key@),
{
    let document = text.parse::<toml::Table>().ok()?;
    document.get(table)?.get(key)?.as_str().map(str::to_owned)
}

/// The registration of this application with GitHub.
#[derive(Debug, PartialEq, Eq)]
pub struct GitHubConfiguration {
    pub client_id: String,
    pub client_secret: String,
    pub redirect_uri: String,
}

/// The mathematical content of a [`GitHubConfiguration`].
pub ghost struct GitHubConfigurationView {
    pub client_id: Seq<char>,
    pub client_secret: Seq<char>,
    pub redirect_uri: Seq<char>,
}

impl View for GitHubConfiguration {
    type V = GitHubConfigurationView;

    open spec fn view(&self) -> GitHubConfigurationView {
        GitHubConfigurationView {
            client_id: self.client_id@,
            client_secret: self.client_secret@,
            redirect_uri: self.redirect_uri@,
        }
    }
}

impl Clone for GitHubConfiguration {
    fn clone(&self) -> (r: Self)
        ensures
            r == *self,
    {
        GitHubConfiguration {
            client_id: self.client_id.clone(),
            client_secret: self.client_secret.clone(),
            redirect_uri: self.redirect_uri.clone(),
        }
    }
}

/// Everything that is configured from outside.
#[derive(Debug, PartialEq, Eq)]
pub struct Configuration {
    pub github: GitHubConfiguration,
}

impl View for Configuration {
    type V = GitHubConfigurationView;

    open spec fn view(&self) -> GitHubConfigurationView {
        self.github@
    }
}

impl Clone for Configuration {
    fn clone(&self) -> (r: Self)
        ensures
            r == *self,
    {
        Configuration { github: self.github.clone() }
    }
}

impl Configuration {
    /// The configuration that the TOML document `text` holds: the three
    /// strings of its table `github`. There is none where one of them is
    /// missing.
    pub open spec fn parsed(text: Seq<char>) -> Option<GitHubConfigurationView> {
        match (
            toml_string(text, "github"@, "client_id"@),
            toml_string(text, "github"@, "client_secret"@),
            toml_string(text, "github"@, "redirect_uri"@),
        ) {
            (Some(client_id), Some(client_secret), Some(redirect_uri)) => Some(
                GitHubConfigurationView { client_id, client_secret, redirect_uri },
            ),
            _ => None,
        }
    }

    /// Reads the configuration from the text of a TOML document.
    pub fn from_toml(text: &str) -> (r: Option<Configuration>)
        ensures
            r.deep_view() == Configuration::parsed(text@),
    {
        let client_id = read_string(text, "github", "client_id");
        let client_secret = read_string(text, "github", "client_secret");
        let redirect_uri = read_string(text, "github", "redirect_uri");
        match (client_id, client_secret, redirect_uri) {
            (Some(client_id), Some(client_secret), Some(redirect_uri)) => Some(
                Configuration {
                    github: GitHubConfiguration { client_id, client_secret, redirect_uri },
                },
            ),
            _ => None,
        }
    }
}

impl DeepView for Configuration {
    type V = GitHubConfigurationView;

    open spec fn deep_view(&self) -> GitHubConfigurationView {
        self@
    }
}

} // verus!
