//! Identity tokens: which of the issuer's keys a token is held against, and
//! what the key says of it.
use crate::auth::Verdict;
use crate::text::{chars_of, push_text, str_eq, string_of};
use vstd::prelude::*;

verus! {

/// `jsonwebtoken::errors::Error`, the error of the token library: carried
/// through as it is.
#[verifier::external_type_specification]
#[verifier::external_body]
pub struct ExJwtError(jsonwebtoken::errors::Error);

/// One public key of an issuer.
#[derive(Debug)]
pub struct JsonWebKey {
    pub kty: String,
    pub kid: String,
    /// The name of the algorithm that the key signs with.
    pub alg: String,
    pub n: String,
    pub e: String,
}

/// An issuer and its keys.
#[derive(Debug)]
pub struct Client {
    pub issuer: String,
    pub keys: Vec<JsonWebKey>,
}

/// What the header of a token says.
#[derive(Debug)]
pub struct TokenHeader {
    /// The id of the key that signed the token.
    pub kid: Option<String>,
    /// The name of the algorithm that signed it.
    pub alg: String,
}

/// A header as plain values.
pub struct HeaderModel {
    pub kid: Option<Seq<char>>,
    pub alg: Seq<char>,
}

impl View for TokenHeader {
    type V = HeaderModel;

    open spec fn view(&self) -> HeaderModel {
        HeaderModel {
            kid: match self.kid {
                Some(k) => Some(k@),
                None => None,
            },
            alg: self.alg@,
        }
    }
}

/// Why a token is not held against a key.
#[derive(Debug, Clone, Copy, PartialEq, Eq, Structural)]
pub enum OidcError {
    /// The token has no header that can be read.
    BadHeader,
    /// The header names no key.
    NoKeyId,
    /// The issuer has no key of the id that the header names.
    UnknownKey,
    /// Key and header name different algorithms.
    AlgMismatch,
    /// The algorithm is not RS256.
    UnsupportedAlgorithm,
}

/// The header that the token library reads off a token, or `None` where
/// it reads none.
pub uninterp spec fn token_header(token: Seq<char>) -> Option<HeaderModel>;

/// `jsonwebtoken::decode_header` reads the header of a token without
/// checking its signature. The key id is taken as it is, the algorithm by
/// its name. The contract claims only that the outcome is the one the
/// library has for this token.
#[verifier::external_body]
fn decode_header(token: &str) -> (r: Result<TokenHeader, jsonwebtoken::errors::Error>)
    ensures
        match r {
            Ok(h) => token_header(token@) == Some(h@),
            Err(_) => token_header(token@) is None,
        },
{
    let header = jsonwebtoken::decode_header(token)?;
    Ok(TokenHeader { kid: header.kid, alg: format!("{:?}", header.alg) })
}

/// `jsonwebtoken::decode` checks the RS256 signature of a token against
/// the RSA key with modulus `n` and exponent `e`, and that the token is
/// not expired and names the issuer; it then hands out the claims. A claim
/// whose value is text keeps it, any other claim keeps no value. What the
/// answer is depends on the clock, so nothing is claimed of it.
#[verifier::external_body]
fn verify_rs256(token: &str, n: &str, e: &str, issuer: &str) -> (r: Result<
    Vec<(String, Option<String>)>,
    jsonwebtoken::errors::Error,
>) {
    let mut validation = jsonwebtoken::Validation::new(jsonwebtoken::Algorithm::RS256);
    validation.set_issuer(&[issuer]);
    let key = jsonwebtoken::DecodingKey::from_rsa_components(n, e)?;
    let data = jsonwebtoken::decode::<std::collections::HashMap<String, serde_json::Value>>(
        token,
        &key,
        &validation,
    )?;
    Ok(data.claims.into_iter().map(|(k, v)| (k, v.as_str().map(String::from))).collect())
}

/// The position of the first key with the id, if there is one.
pub open spec fn key_at(keys: Seq<JsonWebKey>, kid: Seq<char>) -> Option<int>
    decreases keys.len(),
{
    if keys.len() == 0 {
        None
    } else {
        match key_at(keys.drop_last(), kid) {
            Some(i) => Some(i),
            None => if keys.last().kid@ == kid {
                Some(keys.len() - 1)
            } else {
                None
            },
        }
    }
}

/// A key found among the first `k` is the one found in the whole list.
pub proof fn lemma_key_stays(keys: Seq<JsonWebKey>, kid: Seq<char>, k: int)
    requires
        0 <= k <= keys.len(),
        key_at(keys.take(k), kid) is Some,
    ensures
        key_at(keys, kid) == key_at(keys.take(k), kid),
    decreases keys.len() - k,
{
    if k == keys.len() {
        assert(keys.take(k) == keys);
    } else {
        assert(keys.take(k + 1).drop_last() == keys.take(k));
        lemma_key_stays(keys, kid, k + 1);
    }
}

/// The key that a token is held against: the first key of the id that the
/// header names. The header must name a key, the issuer must have it, key
/// and header must name the same algorithm, and that must be RS256.
pub open spec fn key_for(keys: Seq<JsonWebKey>, header: Option<HeaderModel>) -> Result<
    int,
    OidcError,
> {
    match header {
        None => Err(OidcError::BadHeader),
        Some(h) => match h.kid {
            None => Err(OidcError::NoKeyId),
            Some(kid) => match key_at(keys, kid) {
                None => Err(OidcError::UnknownKey),
                Some(i) => if keys[i].alg@ != h.alg {
                    Err(OidcError::AlgMismatch)
                } else if h.alg != "RS256"@ {
                    Err(OidcError::UnsupportedAlgorithm)
                } else {
                    Ok(i)
                },
            },
        },
    }
}

/// The address of an issuer's configuration: the issuer, a `/` where it
/// does not end in one, and the well-known path.
pub open spec fn config_url_of(issuer: Seq<char>) -> Seq<char> {
    issuer + (if issuer.len() > 0 && issuer.last() == '/' {
        Seq::empty()
    } else {
        "/"@
    }) + ".well-known/openid-configuration"@
}

/// The address of an issuer's configuration.
pub fn config_url(issuer: &str) -> (url: String)
    ensures
        url@ == config_url_of(issuer@),
{
    let mut out = chars_of(issuer);
    let ends_in_slash = out.len() > 0 && out[out.len() - 1] == '/';
    if !ends_in_slash {
        push_text(&mut out, "/");
    }
    push_text(&mut out, ".well-known/openid-configuration");
    assert(out@ =~= config_url_of(issuer@));
    string_of(&out)
}

impl Client {
    /// Picks the key for a header.
    pub fn select_key(&self, header: &Option<TokenHeader>) -> (r: Result<usize, OidcError>)
        ensures
            match r {
                Ok(i) => key_for(self.keys@, header_model(*header)) == Ok::<int, OidcError>(
                    i as int,
                ) && i < self.keys.len(),
                Err(e) => key_for(self.keys@, header_model(*header)) == Err::<int, OidcError>(e),
            },
    {
        let h = match header {
            Some(h) => h,
            None => {
                return Err(OidcError::BadHeader);
            },
        };
        let kid = match &h.kid {
            Some(k) => k,
            None => {
                return Err(OidcError::NoKeyId);
            },
        };
        let mut i: usize = 0;
        while i < self.keys.len()
            invariant
                i <= self.keys.len(),
                header_model(*header) == Some(h@),
                h@.kid == Some(kid@),
                key_at(self.keys@.take(i as int), kid@) is None,
            decreases self.keys.len() - i,
        {
            assert(self.keys@.take(i + 1).drop_last() == self.keys@.take(i as int));
            assert(self.keys@.take(i + 1).last() == self.keys@[i as int]);
            if str_eq(self.keys[i].kid.as_str(), kid.as_str()) {
                proof {
                    lemma_key_stays(self.keys@, kid@, i + 1);
                }
                if !str_eq(self.keys[i].alg.as_str(), h.alg.as_str()) {
                    return Err(OidcError::AlgMismatch);
                }
                if !str_eq(h.alg.as_str(), "RS256") {
                    return Err(OidcError::UnsupportedAlgorithm);
                }
                return Ok(i);
            }
            i += 1;
        }
        assert(self.keys@.take(self.keys@.len() as int) == self.keys@);
        Err(OidcError::UnknownKey)
    }

    /// Picks the key that a token is held against, from the token's header.
    pub fn key_of(&self, token: &str) -> (r: Result<usize, OidcError>)
        ensures
            match r {
                Ok(i) => key_for(self.keys@, token_header(token@)) == Ok::<int, OidcError>(i as int)
                    && i < self.keys.len(),
                Err(e) => key_for(self.keys@, token_header(token@)) == Err::<int, OidcError>(e),
            },
    {
        let header = read_header(token);
        self.select_key(&header)
    }

    /// Holds a token against the issuer's keys. A token for which no key is
    /// picked is rejected. Any other token is held against the key picked,
    /// for this issuer, and the verdict is made of what the token library
    /// finds at this moment.
    pub fn validate_token(&self, token: &str) -> (verdict: Verdict)
        ensures
            !(verdict is NotConfigured),
            key_for(self.keys@, token_header(token@)) is Err ==> verdict is Rejected,
    {
        let i = match self.key_of(token) {
            Ok(i) => i,
            Err(_) => {
                return Verdict::Rejected;
            },
        };
        let key = &self.keys[i];
        let checked = match verify_rs256(
            token,
            key.n.as_str(),
            key.e.as_str(),
            self.issuer.as_str(),
        ) {
            Ok(claims) => Some(claims),
            Err(_) => None,
        };
        verdict_of(checked)
    }
}

/// The verdict on a token that was held against a key: the claims that the
/// key vouches for, or a rejection where it vouches for none.
pub fn verdict_of(checked: Option<Vec<(String, Option<String>)>>) -> (verdict: Verdict)
    ensures
        verdict == match checked {
            Some(claims) => Verdict::Claims(claims),
            None => Verdict::Rejected,
        },
{
    match checked {
        Some(claims) => Verdict::Claims(claims),
        None => Verdict::Rejected,
    }
}

/// What an optional header says.
pub open spec fn header_model(header: Option<TokenHeader>) -> Option<HeaderModel> {
    match header {
        Some(h) => Some(h@),
        None => None,
    }
}

/// Reads the header of a token, without any check of the token.
pub fn read_header(token: &str) -> (header: Option<TokenHeader>)
    ensures
        header_model(header) == token_header(token@),
{
    match decode_header(token) {
        Ok(h) => Some(h),
        Err(_) => None,
    }
}

/// What the server's issuer says of a token: nothing is set up without an
/// issuer.
pub fn verdict_for(client: &Option<Client>, token: &str) -> (verdict: Verdict)
    ensures
        client is None <==> verdict is NotConfigured,
        client matches Some(c) && key_for(c.keys@, token_header(token@)) is Err ==> verdict
            is Rejected,
{
    match client {
        None => Verdict::NotConfigured,
        Some(c) => c.validate_token(token),
    }
}

} // verus!
