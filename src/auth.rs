//! The verifiable parts of an OAuth 2.0 authorization-code flow with PKCE: the code verifier,
//! its challenge, the authorization query and the check of the redirected response.
use vstd::prelude::*;
use vstd::string::*;
use crate::util::{build_query_string, pair_texts, query_spec};

verus! {

/// The characters that a code verifier or a state is drawn from.
pub const CODE_CHARS: &'static str = "ABCDEFGHIJKLMNOPQRSTUVWXYZabcdefghijklmnopqrstuvwxyz0123456789";

/// Length of a generated code verifier.
pub const CODE_VERIFIER_LEN: usize = 64;

/// Length of a generated state.
pub const STATE_LEN: usize = 5;

/// The tokens that the authorization server grants.
#[derive(Clone, Debug)]
pub struct TokenResult {
    pub access_token: String,
    pub refresh_token: String,
    pub expires_in: u64,
}

/// The outcome of an authentication.
#[derive(Clone, Debug)]
pub enum AuthResult {
    Token(TokenResult),
}

/// How the code challenge is derived from the code verifier.
#[derive(Clone, Copy, Debug, PartialEq, Eq, Structural)]
pub enum CodeChallengeMethod {
    Sha256,
    Plain,
}

pub open spec fn method_name(m: CodeChallengeMethod) -> Seq<char> {
    match m {
        CodeChallengeMethod::Sha256 => "S256"@,
        CodeChallengeMethod::Plain => "plain"@,
    }
}

impl CodeChallengeMethod {
    /// The method's name as the protocol writes it.
    pub fn to_string(&self) -> (r: String)
        ensures
            r@ == method_name(*self),
    {
        match self {
            CodeChallengeMethod::Sha256 => "S256".to_owned(),
            CodeChallengeMethod::Plain => "plain".to_owned(),
        }
    }
}

/// What SHA-256 makes of a byte string.
pub uninterp spec fn sha256_of(data: Seq<u8>) -> Seq<u8>;

/// What URL-safe base64 without padding makes of a byte string.
pub uninterp spec fn base64_url_of(data: Seq<u8>) -> Seq<char>;

/// Relies on `sha2::Sha256::digest`: the 32-byte SHA-256 digest of `data`.
#[verifier::external_body]
fn sha256(data: &[u8]) -> (r: Vec<u8>)
    ensures
        r@ == sha256_of(data@),
        r@.len() == 32,
{
    <sha2::Sha256 as sha2::Digest>::digest(data).to_vec()
}

/// Relies on `base64::engine::general_purpose::URL_SAFE_NO_PAD.encode`.
#[verifier::external_body]
fn base64_url(data: &[u8]) -> (r: String)
    ensures
        r@ == base64_url_of(data@),
{
    base64::Engine::encode(&base64::engine::general_purpose::URL_SAFE_NO_PAD, data)
}

/// Relies on `rand::rngs::StdRng::try_from_os_rng` and `rand::Rng::random_iter`: `count`
/// random words from a generator seeded by the operating system, or `None` where the system
/// gives no entropy.
#[verifier::external_body]
fn random_words(count: usize) -> (r: Option<Vec<u32>>)
    ensures
        r matches Some(w) ==> w@.len() == count,
{
    let rng = <rand::rngs::StdRng as rand::SeedableRng>::try_from_os_rng().ok()?;
    Some(rand::Rng::random_iter(rng).take(count).collect())
}

/// The code character that a random word selects.
pub open spec fn code_char(w: u32) -> char {
    CODE_CHARS@[(w % 62) as int]
}

/// Turns random words into code characters, one each.
pub fn code_from_words(words: &Vec<u32>) -> (r: String)
    ensures
        r@ == words@.map_values(|w: u32| code_char(w)),
{
    proof {
        reveal_strlit("ABCDEFGHIJKLMNOPQRSTUVWXYZabcdefghijklmnopqrstuvwxyz0123456789");
    }
    let mut code = String::new();
    let mut i: usize = 0;
    while i < words.len()
        invariant
            0 <= i <= words.len(),
            CODE_CHARS@.len() == 62,
            code@ == words@.take(i as int).map_values(|w: u32| code_char(w)),
        decreases words.len() - i,
    {
        let k = (words[i] % 62) as usize;
        let c = CODE_CHARS.substring_char(k, k + 1);
        code.append(c);
        proof {
            assert(c@ =~= seq![code_char(words@[i as int])]);
            assert(words@.take(i + 1).map_values(|w: u32| code_char(w)) =~= words@.take(
                i as int,
            ).map_values(|w: u32| code_char(w)).push(code_char(words@[i as int])));
        }
        i = i + 1;
    }
    proof {
        assert(words@.take(words@.len() as int) =~= words@);
    }
    code
}

/// The challenge that goes with a verifier: for `Sha256`, the URL-safe base64 (no padding)
/// of the verifier's SHA-256 digest; for `Plain`, the verifier itself.
pub open spec fn challenge_spec(m: CodeChallengeMethod, verifier: &str) -> Seq<char> {
    match m {
        CodeChallengeMethod::Sha256 => base64_url_of(sha256_of(verifier.spec_bytes())),
        CodeChallengeMethod::Plain => verifier@,
    }
}

/// The URL-safe base64 (no padding) of the SHA-256 digest of `verifier`'s UTF-8 bytes.
pub fn generate_challenge(verifier: &str) -> (r: String)
    ensures
        r@ == base64_url_of(sha256_of(verifier.spec_bytes())),
{
    let digest = sha256(verifier.as_bytes());
    base64_url(digest.as_slice())
}

/// What the redirected authorization response yields: the code, or the reason it failed.
/// A missing state counts as the empty one.
pub open spec fn auth_response_spec(
    expected_state: Seq<char>,
    state: Option<Seq<char>>,
    error: Option<Seq<char>>,
    code: Option<Seq<char>>,
) -> Result<Seq<char>, Seq<char>> {
    let got = match state {
        Some(s) => s,
        None => Seq::empty(),
    };
    if got != expected_state {
        Err("state missing or invalid"@)
    } else if error is Some {
        Err(error.unwrap())
    } else if code is Some {
        Ok(code.unwrap())
    } else {
        Err("'code' or 'error' missing"@)
    }
}

pub open spec fn opt_text(s: Option<String>) -> Option<Seq<char>> {
    match s {
        Some(t) => Some(t@),
        None => None,
    }
}

pub open spec fn result_text(r: Result<String, String>) -> Result<Seq<char>, Seq<char>> {
    match r {
        Ok(t) => Ok(t@),
        Err(e) => Err(e@),
    }
}

/// Checks the query parameters `state`, `error` and `code` of the redirect that ends an
/// authorization against the state that was sent.
pub fn check_auth_response(
    expected_state: &str,
    state: Option<String>,
    error: Option<String>,
    code: Option<String>,
) -> (r: Result<String, String>)
    ensures
        result_text(r) == auth_response_spec(
            expected_state@,
            opt_text(state),
            opt_text(error),
            opt_text(code),
        ),
{
    let got = match state {
        Some(s) => s,
        None => String::new(),
    };
    let expected = expected_state.to_owned();
    if !got.eq(&expected) {
        return Err("state missing or invalid".to_owned());
    }
    match error {
        Some(e) => Err(e),
        None => match code {
            Some(c) => Ok(c),
            None => Err("'code' or 'error' missing".to_owned()),
        },
    }
}

/// The texts of a list of owned string pairs.
pub open spec fn owned_pair_texts(params: Seq<(String, String)>) -> Seq<(Seq<char>, Seq<char>)> {
    params.map_values(|p: (String, String)| (p.0@, p.1@))
}

fn pair(k: &str, v: &str) -> (r: (String, String))
    ensures
        r.0@ == k@,
        r.1@ == v@,
{
    (k.to_owned(), v.to_owned())
}

/// A client of an authorization server that authenticates with PKCE.
pub struct OAuth2PKCEAuthenticator {
    pub client_id: String,
    pub scope: String,
    pub auth_url: String,
    pub redirect_url: String,
    pub challenge_method: CodeChallengeMethod,
}

impl OAuth2PKCEAuthenticator {
    pub fn new(
        client_id: String,
        scope: String,
        auth_url: String,
        redirect_url: String,
        method: CodeChallengeMethod,
    ) -> (r: OAuth2PKCEAuthenticator)
        ensures
            r.client_id@ == client_id@,
            r.scope@ == scope@,
            r.auth_url@ == auth_url@,
            r.redirect_url@ == redirect_url@,
            r.challenge_method == method,
    {
        OAuth2PKCEAuthenticator { client_id, scope, auth_url, redirect_url, challenge_method: method }
    }

    /// A random code of `code_len` characters drawn from `CODE_CHARS`, or `None` where the
    /// operating system gives no entropy.
    pub fn generate_verifier(&self, code_len: usize) -> (r: Option<String>)
        ensures
            r matches Some(s) ==> s@.len() == code_len && forall|i: int|
                0 <= i < code_len ==> CODE_CHARS@.contains(#[trigger] s@[i]),
    {
        let words = random_words(code_len);
        match words {
            Some(w) => {
                let s = code_from_words(&w);
                proof {
                    reveal_strlit("ABCDEFGHIJKLMNOPQRSTUVWXYZabcdefghijklmnopqrstuvwxyz0123456789");
                    assert forall|i: int| 0 <= i < code_len implies CODE_CHARS@.contains(
                        #[trigger] s@[i],
                    ) by {
                        assert(s@[i] == code_char(w@[i]));
                        assert(CODE_CHARS@[(w@[i] % 62) as int] == s@[i]);
                    }
                }
                Some(s)
            },
            None => None,
        }
    }

    /// The challenge sent for `verifier` under this client's method.
    pub fn challenge_for(&self, verifier: &str) -> (r: String)
        ensures
            r@ == challenge_spec(self.challenge_method, verifier),
    {
        match self.challenge_method {
            CodeChallengeMethod::Sha256 => generate_challenge(verifier),
            CodeChallengeMethod::Plain => verifier.to_owned(),
        }
    }

    /// The query of the authorization request (to be set on `<auth_url>/authorize`).
    pub fn authorization_query(&self, state: &str, challenge: &str) -> (r: String)
        ensures
            r@ == query_spec(
                seq![
                    ("client_id"@, self.client_id@),
                    ("response_type"@, "code"@),
                    ("redirect_uri"@, self.redirect_url@),
                    ("state"@, state@),
                    ("scope"@, self.scope@),
                    ("code_challenge_method"@, method_name(self.challenge_method)),
                    ("code_challenge"@, challenge@),
                ],
            ),
    {
        let method = self.challenge_method.to_string();
        let params = [
            ("client_id", self.client_id.as_str()),
            ("response_type", "code"),
            ("redirect_uri", self.redirect_url.as_str()),
            ("state", state),
            ("scope", self.scope.as_str()),
            ("code_challenge_method", method.as_str()),
            ("code_challenge", challenge),
        ];
        let r = build_query_string(&params);
        proof {
            assert(pair_texts(params@) =~= seq![
                ("client_id"@, self.client_id@),
                ("response_type"@, "code"@),
                ("redirect_uri"@, self.redirect_url@),
                ("state"@, state@),
                ("scope"@, self.scope@),
                ("code_challenge_method"@, method_name(self.challenge_method)),
                ("code_challenge"@, challenge@),
            ]);
        }
        r
    }
    /// The form that trades the authorization code for tokens.
    pub fn token_request_params(&self, auth_code: &str, code_verifier: &str) -> (r: Vec<(String, String)>)
        ensures
            owned_pair_texts(r@) == seq![
                ("grant_type"@, "authorization_code"@),
                ("code"@, auth_code@),
                ("redirect_uri"@, self.redirect_url@),
                ("client_id"@, self.client_id@),
                ("code_verifier"@, code_verifier@),
            ],
    {
        let r = vec![
            pair("grant_type", "authorization_code"),
            pair("code", auth_code),
            pair("redirect_uri", self.redirect_url.as_str()),
            pair("client_id", self.client_id.as_str()),
            pair("code_verifier", code_verifier),
        ];
        assert(owned_pair_texts(r@) =~= seq![
            ("grant_type"@, "authorization_code"@),
            ("code"@, auth_code@),
            ("redirect_uri"@, self.redirect_url@),
            ("client_id"@, self.client_id@),
            ("code_verifier"@, code_verifier@),
        ]);
        r
    }

    /// The form that trades a refresh token for new tokens.
    pub fn refresh_request_params(&self, refresh_token: &str) -> (r: Vec<(String, String)>)
        ensures
            owned_pair_texts(r@) == seq![
                ("grant_type"@, "refresh_token"@),
                ("refresh_token"@, refresh_token@),
                ("client_id"@, self.client_id@),
            ],
    {
        let r = vec![
            pair("grant_type", "refresh_token"),
            pair("refresh_token", refresh_token),
            pair("client_id", self.client_id.as_str()),
        ];
        assert(owned_pair_texts(r@) =~= seq![
            ("grant_type"@, "refresh_token"@),
            ("refresh_token"@, refresh_token@),
            ("client_id"@, self.client_id@),
        ]);
        r
    }
}

} // verus!
