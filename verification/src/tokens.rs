//! The OAuth token pair and its place in the key-value store.

use crate::key_value::{KeyValueError, KeyValueOperation, KeyValueOperationView};
use crate::text::joined;
use crate::time::Timestamp;
use vstd::prelude::*;

verus! {

/// The key under which the token pair is stored.
pub const GITHUB_TOKENS_STORAGE_KEY: &'static str = "github_tokens";

/// A credential: its type, its value and the instant from which it is no
/// longer accepted.
#[derive(Debug, PartialEq, Eq)]
pub struct Token {
    pub token_type: String,
    pub access_token: String,
    pub expires_at: Timestamp,
}

/// The mathematical content of a [`Token`].
pub ghost struct TokenView {
    pub token_type: Seq<char>,
    pub access_token: Seq<char>,
    pub expires_at: Timestamp,
}

impl TokenView {
    /// The token is accepted at `now`: `now` is strictly before the expiry.
    pub open spec fn valid_at(self, now: Timestamp) -> bool {
        now.is_before(self.expires_at)
    }

    /// The value of the `Authorization` header that presents this token.
    pub open spec fn authorization(self) -> Seq<char> {
        self.token_type + seq![' '] + self.access_token
    }
}

impl View for Token {
    type V = TokenView;

    open spec fn view(&self) -> TokenView {
        TokenView {
            token_type: self.token_type@,
            access_token: self.access_token@,
            expires_at: self.expires_at,
        }
    }
}

impl DeepView for Token {
    type V = TokenView;

    open spec fn deep_view(&self) -> TokenView {
        self@
    }
}

impl Clone for Token {
    fn clone(&self) -> (r: Self)
        ensures
            r == *self,
    {
        Token {
            token_type: self.token_type.clone(),
            access_token: self.access_token.clone(),
            expires_at: self.expires_at,
        }
    }
}

impl Token {
    /// A token of the given type and value that expires at `expires_at`.
    pub fn new(token_type: String, access_token: String, expires_at: Timestamp) -> (r: Self)
        ensures
            r == (Token { token_type, access_token, expires_at }),
    {
        Self { token_type, access_token, expires_at }
    }

    /// Whether the token is accepted at the instant `now`.
    pub fn is_valid_at(&self, now: Timestamp) -> (r: bool)
        ensures
            r == self@.valid_at(now),
    {
        now.before(&self.expires_at)
    }

    /// Whether the token is accepted at the current instant of the system
    /// clock.
    pub fn is_valid(&self) -> (r: bool)
        ensures
            exists|now: Timestamp| now.wf() && r == self@.valid_at(now),
    {
        let now = Timestamp::now();
        let r = self.is_valid_at(now);
        r
    }

    /// Whether `self` and `other` hold the same type, value and expiry.
    fn same_as(&self, other: &Token) -> (r: bool)
        ensures
            r == (self@ == other@),
    {
        self.token_type == other.token_type && self.access_token == other.access_token
            && self.expires_at.secs == other.expires_at.secs && self.expires_at.nanos
            == other.expires_at.nanos
    }

    /// The value of the `Authorization` header that presents this token: the
    /// type, a space, the value.
    pub fn to_authorization_header_value(&self) -> (r: String)
        ensures
            r@ == self@.authorization(),
    {
        let mut r = joined(self.token_type.as_str(), " ");
        r.append(self.access_token.as_str());
        proof {
            reveal_strlit(" ");
        }
        r
    }
}

/// A token is not accepted at the instant of its expiry, nor at any later one.
pub proof fn lemma_expired_from_expiry_on(token: TokenView, now: Timestamp)
    requires
        now == token.expires_at || token.expires_at.is_before(now),
    ensures
        !token.valid_at(now),
{
}

/// An access token and the refresh token issued with it.
#[derive(Debug, PartialEq, Eq)]
pub struct Tokens {
    pub access_token: Token,
    pub refresh_token: Token,
}

/// The mathematical content of a [`Tokens`] pair.
pub ghost struct TokensView {
    pub access_token: TokenView,
    pub refresh_token: TokenView,
}

impl View for Tokens {
    type V = TokensView;

    open spec fn view(&self) -> TokensView {
        TokensView { access_token: self.access_token@, refresh_token: self.refresh_token@ }
    }
}

impl DeepView for Tokens {
    type V = TokensView;

    open spec fn deep_view(&self) -> TokensView {
        self@
    }
}

impl Clone for Tokens {
    fn clone(&self) -> (r: Self)
        ensures
            r == *self,
    {
        Tokens {
            access_token: self.access_token.clone(),
            refresh_token: self.refresh_token.clone(),
        }
    }
}

impl Tokens {
    /// Whether `self` and `other` hold the same two tokens.
    fn same_as(&self, other: &Tokens) -> (r: bool)
        ensures
            r == (self@ == other@),
    {
        self.access_token.same_as(&other.access_token) && self.refresh_token.same_as(
            &other.refresh_token,
        )
    }
}

impl TokensView {
    /// The bytes under which the pair is stored: its serialized form, where
    /// there is one and it reads back as this very pair.
    pub open spec fn stored_form(self) -> Option<Seq<u8>> {
        match serialized(self) {
            Some(bytes) => if deserialized(bytes) == Some(self) {
                Some(bytes)
            } else {
                None
            },
            None => None,
        }
    }
}

/// The bytes that `bincode::serialize` gives for a token pair, where it gives
/// any.
pub uninterp spec fn serialized(tokens: TokensView) -> Option<Seq<u8>>;

/// The token pair that `bincode::deserialize` reads from `bytes`, where it
/// reads one.
pub uninterp spec fn deserialized(bytes: Seq<u8>) -> Option<TokensView>;

/// Calls `bincode::serialize` on the pair, written as two triples of type,
/// value and expiry, each expiry as the `chrono::DateTime<Utc>` that
/// `DateTime::from_timestamp` makes of it. The result is `None` where either
/// call fails; otherwise it is given the name [`serialized`]. Nothing is
/// claimed of the bytes themselves.
#[verifier::external_body]
fn serialize(tokens: &Tokens) -> (r: Option<Vec<u8>>)
    ensures
        match r {
            Some(bytes) => serialized(tokens@) == Some(bytes@),
            None => serialized(tokens@) is None,
        },
{
    let (a, b) = (&tokens.access_token, &tokens.refresh_token);
    let a_at = chrono::DateTime::from_timestamp(a.expires_at.secs, a.expires_at.nanos)?;
    let b_at = chrono::DateTime::from_timestamp(b.expires_at.secs, b.expires_at.nanos)?;
    let access = (&a.token_type, &a.access_token, a_at);
    let refresh = (&b.token_type, &b.access_token, b_at);
    bincode::serialize(&(access, refresh)).ok()
}

/// Calls `bincode::deserialize` for two triples of type, value and expiry, and
/// takes each expiry apart with `DateTime::timestamp` and
/// `DateTime::timestamp_subsec_nanos`. The result is `None` where the call
/// fails; otherwise it is given the name [`deserialized`].
#[verifier::external_body]
fn deserialize(bytes: &Vec<u8>) -> (r: Option<Tokens>)
    ensures
        r.deep_view() == deserialized(bytes@),
{
    let (a, b) = bincode::deserialize::<(
        (String, String, chrono::DateTime<chrono::Utc>),
        (String, String, chrono::DateTime<chrono::Utc>),
    )>(bytes).ok()?;
    let a_at = Timestamp { secs: a.2.timestamp(), nanos: a.2.timestamp_subsec_nanos() };
    let b_at = Timestamp { secs: b.2.timestamp(), nanos: b.2.timestamp_subsec_nanos() };
    Some(Tokens {
        access_token: Token { token_type: a.0, access_token: a.1, expires_at: a_at },
        refresh_token: Token { token_type: b.0, access_token: b.1, expires_at: b_at },
    })
}

/// The client of the key-value store that keeps the token pair.
#[derive(Clone, Copy, Debug, PartialEq, Eq, Structural)]
pub struct TokenStore;

impl TokenStore {
    /// The key of the stored pair, as a sequence of characters.
    pub open spec fn key() -> Seq<char> {
        GITHUB_TOKENS_STORAGE_KEY@
    }

    /// What a read of the store yields: the pair that the stored bytes hold.
    /// A failed read, a missing value and bytes that hold no pair all yield
    /// nothing.
    pub open spec fn stored_tokens(reply: Result<Option<Seq<u8>>, Seq<char>>) -> Option<
        TokensView,
    > {
        match reply {
            Ok(Some(bytes)) => deserialized(bytes),
            _ => None,
        }
    }

    /// The request that reads the stored pair.
    pub fn get_tokens(&self) -> (r: KeyValueOperation)
        ensures
            r@ == (KeyValueOperationView::Get { key: Self::key() }),
    {
        KeyValueOperation::Get { key: GITHUB_TOKENS_STORAGE_KEY.to_owned() }
    }

    /// Reads the pair out of the store's reply to [`TokenStore::get_tokens`].
    pub fn tokens_from_reply(&self, reply: Result<Option<Vec<u8>>, KeyValueError>) -> (r: Option<
        Tokens,
    >)
        ensures
            r.deep_view() == Self::stored_tokens(reply_view(reply)),
    {
        match reply {
            Ok(Some(bytes)) => deserialize(&bytes),
            _ => None,
        }
    }

    /// The request that stores `tokens`. The bytes are read back before they
    /// are handed out, and there is no request where the pair has no
    /// serialized form or that form does not read back as the same pair.
    pub fn set_tokens(&self, tokens: &Tokens) -> (r: Option<KeyValueOperation>)
        ensures
            r.is_some() == tokens@.stored_form().is_some(),
            r matches Some(op) ==> op@ == (KeyValueOperationView::Put {
                key: Self::key(),
                value: tokens@.stored_form().unwrap(),
            }),
    {
        match serialize(tokens) {
            Some(value) => {
                let reads_back = match deserialize(&value) {
                    Some(read) => read.same_as(tokens),
                    None => false,
                };
                if reads_back {
                    let key = GITHUB_TOKENS_STORAGE_KEY.to_owned();
                    Some(KeyValueOperation::Put { key, value })
                } else {
                    None
                }
            },
            None => None,
        }
    }

    /// The request that removes the stored pair.
    pub fn remove_tokens(&self) -> (r: KeyValueOperation)
        ensures
            r@ == (KeyValueOperationView::Delete { key: Self::key() }),
    {
        KeyValueOperation::Delete { key: GITHUB_TOKENS_STORAGE_KEY.to_owned() }
    }
}

/// The mathematical content of the store's reply to a read.
pub open spec fn reply_view(reply: Result<Option<Vec<u8>>, KeyValueError>) -> Result<
    Option<Seq<u8>>,
    Seq<char>,
> {
    match reply {
        Ok(Some(bytes)) => Ok(Some(bytes@)),
        Ok(None) => Ok(None),
        Err(error) => Err(error.message@),
    }
}

/// Whatever the store writes for a pair reads back as that pair.
pub proof fn lemma_stored_pair_reads_back(tokens: TokensView)
    requires
        tokens.stored_form() is Some,
    ensures
        TokenStore::stored_tokens(Ok(Some(tokens.stored_form().unwrap()))) == Some(tokens),
{
}

} // verus!
