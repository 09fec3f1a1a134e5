//! The two ends of the login at GitHub: the URL the user is sent to, and the
//! code that comes back in the callback URL.

use crate::config::{GitHubConfiguration, GitHubConfigurationView};
use crate::http::{first_value, no_pairs, push_pair, same_pairs, Pairs};
use crate::text::{is_ascii_alphanumeric, is_prefix, joined, same_text, starts_with};
use rand::distr::SampleString;
use rand::SeedableRng;
use vstd::prelude::*;

verus! {

/// The page at which the user authorizes this application.
pub const GITHUB_AUTHORIZE_URL: &'static str = "https://github.com/login/oauth/authorize";

/// The number of characters of the `state` parameter.
pub const STATE_LENGTH: usize = 16;

/// The query pairs of `url` as `Url::query_pairs` yields them, percent-decoded
/// and in their order, where `Url::parse` accepts `url`.
pub uninterp spec fn parsed_query(url: Seq<char>) -> Option<Pairs>;

/// The query string that `serde_qs::to_string` writes for `pairs`, where it
/// writes one.
pub uninterp spec fn query_string(pairs: Pairs) -> Option<Seq<char>>;

/// The text of the URL `base` after `Url::set_query` has given it the query
/// `query`, where `Url::parse` accepts `base`.
pub uninterp spec fn url_with_query(base: Seq<char>, query: Option<Seq<char>>) -> Option<
    Seq<char>,
>;

/// `s` can serve as the `state` parameter: sixteen ASCII letters and digits.
pub open spec fn is_state(s: Seq<char>) -> bool {
    &&& s.len() == STATE_LENGTH
    &&& forall|i: int| 0 <= i < s.len() ==> is_ascii_alphanumeric(#[trigger] s[i])
}

/// Calls `Url::parse` and collects what `Url::query_pairs` yields, each name
/// and value as an owned string. The result is `None` where `url` is not an
/// absolute URL; otherwise it is given the name [`parsed_query`].
#[verifier::external_body]
fn parse_query(url: &str) -> (r: Option<Vec<(String, String)>>)
    ensures
        r.deep_view() == parsed_query(url@),
{
    let parsed = ::url::Url::parse(url).ok()?;
    let pairs = parsed.query_pairs();
    Some(pairs.map(|(name, value)| (name.into_owned(), value.into_owned())).collect())
}

/// Calls `serde_qs::to_string` on `pairs` as a map from name to value, which
/// holds the names in ascending order and, of two pairs with one name, the
/// later. The result is `None` where the call fails; otherwise it is given the
/// name [`query_string`].
#[verifier::external_body]
fn to_query_string(pairs: &Vec<(String, String)>) -> (r: Option<String>)
    ensures
        r.deep_view() == query_string(pairs.deep_view()),
{
    let map: std::collections::BTreeMap<&str, &str> =
        pairs.iter().map(|(name, value)| (name.as_str(), value.as_str())).collect();
    serde_qs::to_string(&map).ok()
}

/// Calls `Url::parse` on `base`, `Url::set_query` with `query`, and turns the
/// URL back into text. The result is `None` where `base` is not an absolute
/// URL; otherwise it is given the name [`url_with_query`]. A base with a
/// fragment is left out: `set_query` puts the fragment back behind the query
/// and stops the program where the text has outgrown 32-bit positions.
#[verifier::external_body]
fn with_query(base: &str, query: Option<&str>) -> (r: Option<String>)
    requires
        !base@.contains('#'),
    ensures
        r.deep_view() == url_with_query(base@, query.deep_view()),
{
    let mut url = ::url::Url::parse(base).ok()?;
    url.set_query(query);
    Some(url.into())
}

/// Seeds a `StdRng` with `SeedableRng::try_from_os_rng` and draws `len`
/// characters with `Alphanumeric.sample_string`. The result is `None` where
/// the system gives no entropy. Of the characters only what holds of every
/// draw is claimed: there are `len` of them, each an ASCII letter or digit.
#[verifier::external_body]
fn sample_alphanumeric(len: usize) -> (r: Option<String>)
    ensures
        r matches Some(s) ==> s@.len() == len && forall|i: int|
            0 <= i < s@.len() ==> is_ascii_alphanumeric(#[trigger] s@[i]),
{
    let mut rng = rand::rngs::StdRng::try_from_os_rng().ok()?;
    Some(rand::distr::Alphanumeric.sample_string(&mut rng, len))
}

/// The value of the first pair in `pairs` whose name is `name`.
pub fn query_value(pairs: &Vec<(String, String)>, name: &str) -> (r: Option<String>)
    ensures
        r.deep_view() == first_value(pairs.deep_view(), name@),
{
    let ghost all = pairs.deep_view();
    let mut i: usize = 0;
    assert(all.skip(0) =~= all);
    while i < pairs.len()
        invariant
            i <= pairs.len(),
            all == pairs.deep_view(),
            first_value(all, name@) == first_value(all.skip(i as int), name@),
        decreases pairs.len() - i,
    {
        let ghost rest = all.skip(i as int);
        assert(rest.drop_first() =~= all.skip(i + 1));
        if same_text(pairs[i].0.as_str(), name) {
            return Some(pairs[i].1.clone());
        }
        i += 1;
    }
    None
}

/// The query parameters of the login URL.
pub open spec fn login_pairs(config: GitHubConfigurationView, state: Seq<char>) -> Pairs {
    seq![
        ("client_id"@, config.client_id),
        ("redirect_uri"@, config.redirect_uri),
        ("state"@, state),
    ]
}

/// `url` sends the user to the authorize page with exactly the parameters of
/// the login: its text begins with the address of that page and a question
/// mark, and its query reads as the client's identifier, the redirect URI
/// and `state`.
pub open spec fn is_login_url(
    url: Seq<char>,
    config: GitHubConfigurationView,
    state: Seq<char>,
) -> bool {
    &&& is_prefix(GITHUB_AUTHORIZE_URL@ + seq!['?'], url)
    &&& parsed_query(url) == Some(login_pairs(config, state))
}

/// The URL that starts the login: the authorize page with the parameters of
/// the login as its query, provided that the text made so
/// [is the login URL](is_login_url) when it is read again.
pub open spec fn login_url(config: GitHubConfigurationView, state: Seq<char>) -> Option<Seq<char>> {
    match url_with_query(GITHUB_AUTHORIZE_URL@, query_string(login_pairs(config, state))) {
        Some(url) => if is_login_url(url, config, state) {
            Some(url)
        } else {
            None
        },
        None => None,
    }
}

/// The authorization code that the callback URL `url` carries: the value of
/// its first `code` parameter. A text that is no URL carries none.
pub open spec fn callback_code(url: Seq<char>) -> Option<Seq<char>> {
    match parsed_query(url) {
        Some(pairs) => first_value(pairs, "code"@),
        None => None,
    }
}

/// Draws a fresh `state` parameter; `None` where the system gives no entropy.
pub fn fresh_state() -> (r: Option<String>)
    ensures
        r matches Some(state) ==> is_state(state@),
{
    sample_alphanumeric(STATE_LENGTH)
}

/// Builds the URL that starts the login with the given `state`. The URL is
/// read again before it is handed out, and there is none where it does not
/// lead to the authorize page with exactly the parameters of the login.
pub fn build_login_url(config: &GitHubConfiguration, state: &str) -> (r: Option<String>)
    ensures
        r.deep_view() == login_url(config@, state@),
        r matches Some(url) ==> is_login_url(url@, config@, state@),
{
    let mut pairs = no_pairs();
    push_pair(&mut pairs, "client_id", config.client_id.as_str());
    push_pair(&mut pairs, "redirect_uri", config.redirect_uri.as_str());
    push_pair(&mut pairs, "state", state);
    assert(pairs.deep_view() =~= login_pairs(config@, state@));
    let query = to_query_string(&pairs);
    proof {
        reveal_strlit("https://github.com/login/oauth/authorize");
    }
    let url = match query {
        Some(query) => with_query(GITHUB_AUTHORIZE_URL, Some(query.as_str())),
        None => with_query(GITHUB_AUTHORIZE_URL, None),
    };
    match url {
        Some(url) => {
            let start = joined(GITHUB_AUTHORIZE_URL, "?");
            proof {
                reveal_strlit("?");
                assert("?"@ =~= seq!['?']);
            }
            let reads_back = match parse_query(url.as_str()) {
                Some(read) => same_pairs(&read, &pairs),
                None => false,
            };
            if starts_with(url.as_str(), start.as_str()) && reads_back {
                Some(url)
            } else {
                None
            }
        },
        None => None,
    }
}

/// The login URL carries the `state` it was built with, and the client's
/// identifier and redirect URI of the configuration.
pub proof fn lemma_login_url_carries_its_parameters(
    config: GitHubConfigurationView,
    state: Seq<char>,
)
    requires
        login_url(config, state) is Some,
    ensures
        ({
            let url = login_url(config, state).unwrap();
            let query = parsed_query(url).unwrap();
            &&& is_prefix(GITHUB_AUTHORIZE_URL@, url)
            &&& first_value(query, "client_id"@) == Some(config.client_id)
            &&& first_value(query, "redirect_uri"@) == Some(config.redirect_uri)
            &&& first_value(query, "state"@) == Some(state)
        }),
{
    reveal_strlit("client_id");
    reveal_strlit("redirect_uri");
    reveal_strlit("state");
    let url = login_url(config, state).unwrap();
    let page = GITHUB_AUTHORIZE_URL@;
    let start = page + seq!['?'];
    assert(url.subrange(0, page.len() as int) =~= url.subrange(0, start.len() as int).subrange(
        0,
        page.len() as int,
    ));
    assert(start.subrange(0, page.len() as int) =~= page);
    assert("client_id"@.len() == 9 && "redirect_uri"@.len() == 12 && "state"@.len() == 5);
    let query = login_pairs(config, state);
    let tail = query.drop_first();
    assert(tail[0] == query[1]);
    assert(tail.drop_first()[0] == query[2]);
    assert(first_value(tail.drop_first(), "state"@) == Some(state));
    assert(first_value(tail, "state"@) == Some(state));
    assert(first_value(tail, "redirect_uri"@) == Some(config.redirect_uri));
}

/// Reads the authorization code out of the callback URL `url`.
pub fn read_callback_code(url: &str) -> (r: Option<String>)
    ensures
        r.deep_view() == callback_code(url@),
{
    match parse_query(url) {
        Some(pairs) => query_value(&pairs, "code"),
        None => None,
    }
}

} // verus!
