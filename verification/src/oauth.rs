//! OAuth and account records: the bearer token, the signed-in Lichess user,
//! the authorisation configuration, and the check of the authorisation
//! redirect.

use crate::text::{copy_opt_string, copy_string, push_str, string_of, texts_equal};
use vstd::prelude::*;

verus! {

/// A JSON value carried through unread (the user's `perfs` and
/// `play_time` blocks).
#[verifier::external_type_specification]
#[verifier::external_body]
pub struct ExJsonValue(serde_json::Value);

/// An OAuth2 access token as the `oauth2` crate represents it.
#[verifier::external_type_specification]
#[verifier::external_body]
pub struct ExAccessToken(oauth2::AccessToken);

#[derive(Debug, Clone)]
pub struct LichessUser {
    pub id: String,
    pub username: String,
    pub perfs: Option<serde_json::Value>,
    pub created_at: Option<i64>,
    pub disabled: Option<bool>,
    pub tos_violation: Option<bool>,
    pub profile: Option<UserProfile>,
    pub seen_at: Option<i64>,
    pub patron: Option<bool>,
    pub verified: Option<bool>,
    pub play_time: Option<serde_json::Value>,
    pub title: Option<String>,
}

#[derive(Debug, Clone)]
pub struct UserProfile {
    pub country: Option<String>,
    pub location: Option<String>,
    pub bio: Option<String>,
    pub first_name: Option<String>,
    pub last_name: Option<String>,
    pub links: Option<String>,
}

#[derive(Debug, Clone)]
pub struct TokenInfo {
    pub access_token: String,
    pub token_type: String,
    pub expires_in: Option<i64>,
    pub scope: Option<String>,
}

/// `Clone` of `serde_json::Value`, a derived deep copy: the copy is the
/// same JSON value.
pub assume_specification[ <serde_json::Value as Clone>::clone ](v: &serde_json::Value) -> (r:
    serde_json::Value)
    ensures
        r == *v,
;

fn copy_opt_json(v: &Option<serde_json::Value>) -> (r: Option<serde_json::Value>)
    ensures
        r == *v,
{
    match v {
        Some(x) => Some(x.clone()),
        None => None,
    }
}

impl UserProfile {
    /// A copy of the profile.
    pub fn duplicate(&self) -> (r: Self)
        ensures
            r == *self,
    {
        UserProfile {
            country: copy_opt_string(&self.country),
            location: copy_opt_string(&self.location),
            bio: copy_opt_string(&self.bio),
            first_name: copy_opt_string(&self.first_name),
            last_name: copy_opt_string(&self.last_name),
            links: copy_opt_string(&self.links),
        }
    }
}

impl LichessUser {
    /// A copy of the user record.
    pub fn duplicate(&self) -> (r: Self)
        ensures
            r == *self,
    {
        LichessUser {
            id: copy_string(&self.id),
            username: copy_string(&self.username),
            perfs: copy_opt_json(&self.perfs),
            created_at: self.created_at,
            disabled: self.disabled,
            tos_violation: self.tos_violation,
            profile: match &self.profile {
                Some(p) => Some(p.duplicate()),
                None => None,
            },
            seen_at: self.seen_at,
            patron: self.patron,
            verified: self.verified,
            play_time: copy_opt_json(&self.play_time),
            title: copy_opt_string(&self.title),
        }
    }
}

impl TokenInfo {
    /// A copy of the token.
    pub fn duplicate(&self) -> (r: Self)
        ensures
            r == *self,
    {
        TokenInfo {
            access_token: copy_string(&self.access_token),
            token_type: copy_string(&self.token_type),
            expires_in: self.expires_in,
            scope: copy_opt_string(&self.scope),
        }
    }

    /// `oauth2::AccessToken::new` on a copy of the access token. The
    /// `AccessToken` is opaque here; that its secret is the access token is
    /// not stated.
    #[verifier::external_body]
    pub fn to_oauth2_token(&self) -> oauth2::AccessToken {
        oauth2::AccessToken::new(self.access_token.clone())
    }
}


/// A lowercase hexadecimal digit.
pub open spec fn is_lower_hex(c: char) -> bool {
    ('0' <= c <= '9') || ('a' <= c <= 'f')
}

/// The hyphenated form of a UUID, as `Uuid`'s `Display` writes it: 36
/// characters, hyphens at 8, 13, 18 and 23, lowercase hex digits elsewhere.
pub open spec fn is_hyphenated_uuid(s: Seq<char>) -> bool {
    &&& s.len() == 36
    &&& forall|i: int|
        0 <= i < 36 ==> if i == 8 || i == 13 || i == 18 || i == 23 {
            s[i] == '-'
        } else {
            is_lower_hex(#[trigger] s[i])
        }
}

/// `uuid::Uuid::new_v4()`, written with its `Display` (lowercase,
/// hyphenated). The value is random: only its format is stated.
#[verifier::external_body]
fn new_uuid_v4_string() -> (s: String)
    ensures
        is_hyphenated_uuid(s@),
{
    format!("{}", uuid::Uuid::new_v4())
}

/// The OAuth scopes the client asks for.
pub open spec fn requested_scopes() -> Seq<Seq<char>> {
    seq![
        "challenge:read"@,
        "challenge:write"@,
        "bot:play"@,
        "board:play"@,
        "puzzle:read"@,
    ]
}

#[derive(Debug, Clone)]
pub struct AuthConfig {
    pub client_id: String,
    pub redirect_port: u16,
    pub scopes: Vec<String>,
}

impl Default for AuthConfig {
    /// A fresh client id per process, the callback on port 8080, and the
    /// scopes for challenges, board and bot play and puzzle activity.
    fn default() -> (r: Self)
        ensures
            r.client_id@.len() == 56,
            r.client_id@.subrange(0, 20) == "lichess-rust-client-"@,
            is_hyphenated_uuid(r.client_id@.subrange(20, 56)),
            r.redirect_port == 8080,
            r.scopes@.map_values(|s: String| s@) == requested_scopes(),
    {
        let mut client_id = crate::text::string_of("lichess-rust-client-");
        let id = new_uuid_v4_string();
        crate::text::push_str(&mut client_id, id.as_str());
        proof {
            reveal_strlit("lichess-rust-client-");
            assert(client_id@.subrange(0, 20) =~= "lichess-rust-client-"@);
            assert(client_id@.subrange(20, 56) =~= id@);
        }
        let mut scopes: Vec<String> = Vec::new();
        scopes.push(crate::text::string_of("challenge:read"));
        scopes.push(crate::text::string_of("challenge:write"));
        scopes.push(crate::text::string_of("bot:play"));
        scopes.push(crate::text::string_of("board:play"));
        // Lets /api/puzzle/next tailor puzzles to the user's rating; tokens
        // issued before this scope was added are answered 403 there, and the
        // puzzle fetch then falls back to an anonymous request.
        scopes.push(crate::text::string_of("puzzle:read"));
        assert(scopes@.map_values(|s: String| s@) =~= requested_scopes());
        Self { client_id, redirect_port: 8080, scopes }
    }
}

#[derive(Debug, Clone)]
pub struct AuthState {
    pub state: String,
    pub code_verifier: String,
    pub auth_url: String,
}

#[derive(Debug)]
pub struct AuthCallbackQuery {
    pub code: Option<String>,
    pub state: Option<String>,
    pub error: Option<String>,
    pub error_description: Option<String>,
}

#[derive(Debug)]
pub enum HttpMethod {
    GET,
    POST,
    PUT,
    DELETE,
    PATCH,
    STREAM,
}

/// The value of the last `key` parameter among the query `pairs`.
pub open spec fn last_value(pairs: Seq<(String, String)>, key: Seq<char>) -> Option<Seq<char>>
    decreases pairs.len(),
{
    if pairs.len() == 0 {
        None
    } else if pairs.last().0@ == key {
        Some(pairs.last().1@)
    } else {
        last_value(pairs.drop_last(), key)
    }
}

/// What the OAuth redirect with query `pairs` gives, the request having
/// been sent with state `expected_state`: an `error` parameter is a refusal;
/// a `state` other than the one sent is refused as a possible forgery;
/// otherwise the authorisation `code`, which must be there.
pub open spec fn callback_answer(pairs: Seq<(String, String)>, expected_state: Seq<char>) -> Result<
    Seq<char>,
    Seq<char>,
> {
    match last_value(pairs, "error"@) {
        Some(e) => Err("authorisation refused: "@ + e),
        None => if last_value(pairs, "state"@) != Some(expected_state) {
            Err("authorisation state mismatch"@)
        } else {
            match last_value(pairs, "code"@) {
                Some(c) => Ok(c),
                None => Err("authorisation code missing"@),
            }
        },
    }
}

/// The view of a text result.
pub open spec fn text_result_view(r: Result<String, String>) -> Result<Seq<char>, Seq<char>> {
    match r {
        Ok(c) => Ok(c@),
        Err(e) => Err(e@),
    }
}

/// The view of an optional text.
pub open spec fn opt_text(o: Option<String>) -> Option<Seq<char>> {
    match o {
        Some(s) => Some(s@),
        None => None,
    }
}

/// Read the OAuth redirect's decoded query `pairs` (see `callback_answer`).
pub fn callback_code(pairs: &Vec<(String, String)>, expected_state: &str) -> (r: Result<String, String>)
    ensures
        text_result_view(r) == callback_answer(pairs@, expected_state@),
{
    let mut code: Option<String> = None;
    let mut state: Option<String> = None;
    let mut error: Option<String> = None;
    let mut i: usize = 0;
    while i < pairs.len()
        invariant
            i <= pairs.len(),
            opt_text(code) == last_value(pairs@.take(i as int), "code"@),
            opt_text(state) == last_value(pairs@.take(i as int), "state"@),
            opt_text(error) == last_value(pairs@.take(i as int), "error"@),
        decreases pairs.len() - i,
    {
        proof {
            reveal_strlit("code");
            reveal_strlit("state");
            reveal_strlit("error");
            assert("code"@.len() != "state"@.len() && "code"@.len() != "error"@.len());
            assert("state"@[0] != "error"@[0]);
        }
        let ghost before = pairs@.take(i as int);
        assert(pairs@.take(i + 1).drop_last() =~= before);
        assert(pairs@.take(i + 1).last() == pairs@[i as int]);
        let key = pairs[i].0.as_str();
        let value = pairs[i].1.as_str();
        if texts_equal(key, "code") {
            code = Some(string_of(value));
        } else if texts_equal(key, "state") {
            state = Some(string_of(value));
        } else if texts_equal(key, "error") {
            error = Some(string_of(value));
        }
        i += 1;
    }
    assert(pairs@.take(pairs.len() as int) =~= pairs@);
    if let Some(e) = error {
        let mut m = string_of("authorisation refused: ");
        push_str(&mut m, e.as_str());
        return Err(m);
    }
    let state_ok = match &state {
        Some(s) => texts_equal(s.as_str(), expected_state),
        None => false,
    };
    if !state_ok {
        return Err(string_of("authorisation state mismatch"));
    }
    match code {
        Some(c) => Ok(c),
        None => Err(string_of("authorisation code missing")),
    }
}

} // verus!
