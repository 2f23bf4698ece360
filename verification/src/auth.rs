//! Who is let in: the bearer token of a request held against the ways that
//! the server is configured with.
use crate::config::{Auth, OidcAuthRule};
use crate::text::{chars_of, is_prefix, matches_at, str_eq, string_of};
use vstd::prelude::*;

pub mod oidc;

verus! {

/// Why a request is not let in.
#[derive(Debug, Clone, Copy, PartialEq, Eq, Structural)]
pub enum AuthError {
    /// The header does not begin with `Bearer `.
    BadAuthHeaderFormat,
    /// No configured way lets the token in.
    Unauthorized,
}

/// Why one way does not let a token in.
#[derive(Debug, Clone, Copy, PartialEq, Eq, Structural)]
pub enum TokenError {
    /// The token is not the shared token.
    IncorrectToken,
    /// The issuer's keys do not vouch for the token.
    BadToken,
    /// None of the rules holds of the token's claims.
    NoRuleMatched,
    /// No issuer is set up.
    OidcNotConfigured,
}

/// What the issuer's keys say of a token.
#[derive(Debug)]
pub enum Verdict {
    /// No issuer is set up.
    NotConfigured,
    /// The token is not vouched for.
    Rejected,
    /// The token is vouched for and makes these claims. A claim whose value
    /// is no text has no value here.
    Claims(Vec<(String, Option<String>)>),
}

/// A claim as plain values.
pub type ClaimModel = (Seq<char>, Option<Seq<char>>);

/// The claims as plain values.
pub open spec fn claim_models(claims: Seq<(String, Option<String>)>) -> Seq<ClaimModel> {
    claims.map_values(
        |c: (String, Option<String>)|
            (
                c.0@,
                match c.1 {
                    Some(v) => Some(v@),
                    None => None,
                },
            ),
    )
}

/// The pairs of a rule as plain values.
pub open spec fn rule_model(rule: OidcAuthRule) -> Seq<(Seq<char>, Seq<char>)> {
    rule.claims@.map_values(|c: (String, String)| (c.0@, c.1@))
}

/// The rules as plain values.
pub open spec fn rule_models(rules: Seq<OidcAuthRule>) -> Seq<Seq<(Seq<char>, Seq<char>)>> {
    rules.map_values(|r: OidcAuthRule| rule_model(r))
}

/// The claims say that `name` has the text `value`: some claim with a text
/// value has that name and that value.
pub open spec fn claims_say(claims: Seq<ClaimModel>, name: Seq<char>, value: Seq<char>) -> bool {
    exists|i: int| 0 <= i < claims.len() && #[trigger] claims[i] == (name, Some(value))
}

/// A rule holds of the claims when they say each of its pairs.
pub open spec fn rule_holds(rule: Seq<(Seq<char>, Seq<char>)>, claims: Seq<ClaimModel>) -> bool {
    forall|j: int| 0 <= j < rule.len() ==> claims_say(claims, (#[trigger] rule[j]).0, rule[j].1)
}

/// Some rule holds of the claims.
pub open spec fn some_rule_holds(
    rules: Seq<Seq<(Seq<char>, Seq<char>)>>,
    claims: Seq<ClaimModel>,
) -> bool {
    exists|r: int| 0 <= r < rules.len() && rule_holds(#[trigger] rules[r], claims)
}

fn says(claims: &Vec<(String, Option<String>)>, name: &str, value: &str) -> (r: bool)
    ensures
        r == claims_say(claim_models(claims@), name@, value@),
{
    let ghost models = claim_models(claims@);
    let mut i: usize = 0;
    while i < claims.len()
        invariant
            i <= claims.len(),
            models == claim_models(claims@),
            forall|k: int| 0 <= k < i ==> #[trigger] models[k] != (name@, Some(value@)),
        decreases claims.len() - i,
    {
        if str_eq(claims[i].0.as_str(), name) {
            if let Some(v) = &claims[i].1 {
                if str_eq(v.as_str(), value) {
                    assert(models[i as int] == (name@, Some(value@)));
                    return true;
                }
            }
        }
        i += 1;
    }
    false
}

fn holds(rule: &OidcAuthRule, claims: &Vec<(String, Option<String>)>) -> (r: bool)
    ensures
        r == rule_holds(rule_model(*rule), claim_models(claims@)),
{
    let ghost model = rule_model(*rule);
    let mut j: usize = 0;
    while j < rule.claims.len()
        invariant
            j <= rule.claims.len(),
            model == rule_model(*rule),
            model.len() == rule.claims.len(),
            forall|k: int|
                0 <= k < j ==> claims_say(claim_models(claims@), (#[trigger] model[k]).0, model[k].1),
        decreases rule.claims.len() - j,
    {
        assert(model[j as int] == (rule.claims[j as int].0@, rule.claims[j as int].1@));
        if !says(claims, rule.claims[j].0.as_str(), rule.claims[j].1.as_str()) {
            return false;
        }
        j += 1;
    }
    true
}

/// Whether some rule holds of the claims.
pub fn claims_match(rules: &Vec<OidcAuthRule>, claims: &Vec<(String, Option<String>)>) -> (r: bool)
    ensures
        r == some_rule_holds(rule_models(rules@), claim_models(claims@)),
{
    let ghost models = rule_models(rules@);
    let mut i: usize = 0;
    while i < rules.len()
        invariant
            i <= rules.len(),
            models == rule_models(rules@),
            models.len() == rules.len(),
            forall|k: int| 0 <= k < i ==> !rule_holds(#[trigger] models[k], claim_models(claims@)),
        decreases rules.len() - i,
    {
        assert(models[i as int] == rule_model(rules[i as int]));
        if holds(&rules[i], claims) {
            return true;
        }
        i += 1;
    }
    false
}

/// Whether one way lets a token in. A shared token must be the token
/// itself. An identity token must be vouched for by the issuer's keys, and
/// one of the rules must hold of its claims.
pub open spec fn token_check(verdict: Verdict, token: Seq<char>, auth: Auth) -> Result<
    (),
    TokenError,
> {
    match auth {
        Auth::Token(shared) => if token == shared.token@ {
            Ok(())
        } else {
            Err(TokenError::IncorrectToken)
        },
        Auth::Oidc(oidc) => match verdict {
            Verdict::NotConfigured => Err(TokenError::OidcNotConfigured),
            Verdict::Rejected => Err(TokenError::BadToken),
            Verdict::Claims(claims) => if some_rule_holds(
                rule_models(oidc.rules@),
                claim_models(claims@),
            ) {
                Ok(())
            } else {
                Err(TokenError::NoRuleMatched)
            },
        },
    }
}

/// Decides whether one way lets a token in.
pub fn check_auth_token(verdict: &Verdict, token: &str, auth: &Auth) -> (r: Result<(), TokenError>)
    ensures
        r == token_check(*verdict, token@, *auth),
{
    match auth {
        Auth::Token(shared) => {
            if str_eq(token, shared.token.as_str()) {
                Ok(())
            } else {
                Err(TokenError::IncorrectToken)
            }
        },
        Auth::Oidc(oidc) => match verdict {
            Verdict::NotConfigured => Err(TokenError::OidcNotConfigured),
            Verdict::Rejected => Err(TokenError::BadToken),
            Verdict::Claims(claims) => {
                if claims_match(&oidc.rules, claims) {
                    Ok(())
                } else {
                    Err(TokenError::NoRuleMatched)
                }
            },
        },
    }
}

/// The token of an authorization header: what follows `Bearer `.
pub open spec fn bearer_token(header: Seq<char>) -> Option<Seq<char>> {
    if is_prefix("Bearer "@, header) {
        Some(header.skip("Bearer "@.len() as int))
    } else {
        None
    }
}

/// Takes the token out of an authorization header.
pub fn strip_bearer(header: &str) -> (r: Option<String>)
    ensures
        match r {
            Some(t) => bearer_token(header@) == Some(t@),
            None => bearer_token(header@) is None,
        },
{
    let h = chars_of(header);
    let p = chars_of("Bearer ");
    if !matches_at(&p, &h, 0) {
        proof {
            if p@.len() <= h@.len() {
                assert(h@.subrange(0, p@.len() as int) == h@.take(p@.len() as int));
            }
        }
        return None;
    }
    assert(h@.subrange(0, p@.len() as int) == h@.take(p@.len() as int));
    let mut t: Vec<char> = Vec::new();
    let mut i: usize = p.len();
    while i < h.len()
        invariant
            p.len() <= i <= h.len(),
            t@ == h@.subrange(p.len() as int, i as int),
        decreases h.len() - i,
    {
        t.push(h[i]);
        assert(h@.subrange(p.len() as int, i + 1) == h@.subrange(p.len() as int, i as int).push(
            h@[i as int],
        ));
        i += 1;
    }
    assert(h@.subrange(p.len() as int, h@.len() as int) == h@.skip(p@.len() as int));
    Some(string_of(&t))
}

/// The first way in the list that lets the token in, if there is one.
pub open spec fn first_way_in(verdict: Verdict, token: Seq<char>, auths: Seq<Auth>) -> Option<int>
    decreases auths.len(),
{
    if auths.len() == 0 {
        None
    } else {
        match first_way_in(verdict, token, auths.drop_last()) {
            Some(i) => Some(i),
            None => if token_check(verdict, token, auths.last()) is Ok {
                Some(auths.len() - 1)
            } else {
                None
            },
        }
    }
}

/// A way in among the first `k` is the first way in of the whole list.
pub proof fn lemma_way_in_stays(verdict: Verdict, token: Seq<char>, auths: Seq<Auth>, k: int)
    requires
        0 <= k <= auths.len(),
        first_way_in(verdict, token, auths.take(k)) is Some,
    ensures
        first_way_in(verdict, token, auths) == first_way_in(verdict, token, auths.take(k)),
    decreases auths.len() - k,
{
    if k == auths.len() {
        assert(auths.take(k) == auths);
    } else {
        assert(auths.take(k + 1).drop_last() == auths.take(k));
        lemma_way_in_stays(verdict, token, auths, k + 1);
    }
}

/// Whether a request is let in, and by which way: the header must carry a
/// bearer token, and the first way that lets the token in counts.
pub open spec fn auth_check(header: Seq<char>, verdict: Verdict, auths: Seq<Auth>) -> Result<
    int,
    AuthError,
> {
    match bearer_token(header) {
        None => Err(AuthError::BadAuthHeaderFormat),
        Some(token) => match first_way_in(verdict, token, auths) {
            Some(i) => Ok(i),
            None => Err(AuthError::Unauthorized),
        },
    }
}

/// Finds the first way that lets a token in.
pub fn check_token(token: &str, verdict: &Verdict, auths: &Vec<Auth>) -> (r: Option<usize>)
    ensures
        match r {
            Some(i) => first_way_in(*verdict, token@, auths@) == Some(i as int) && i < auths.len(),
            None => first_way_in(*verdict, token@, auths@) is None,
        },
{
    let mut i: usize = 0;
    while i < auths.len()
        invariant
            i <= auths.len(),
            first_way_in(*verdict, token@, auths@.take(i as int)) is None,
        decreases auths.len() - i,
    {
        assert(auths@.take(i + 1).drop_last() == auths@.take(i as int));
        assert(auths@.take(i + 1).last() == auths@[i as int]);
        if check_auth_token(verdict, token, &auths[i]).is_ok() {
            proof {
                lemma_way_in_stays(*verdict, token@, auths@, i + 1);
            }
            return Some(i);
        }
        i += 1;
    }
    assert(auths@.take(auths@.len() as int) == auths@);
    None
}

/// Decides whether a request is let in, from its authorization header and
/// from what the issuer's keys say of the token in it. The answer names the
/// way that let it in.
pub fn check_auth(auth_header: &str, verdict: &Verdict, auths: &Vec<Auth>) -> (r: Result<
    usize,
    AuthError,
>)
    ensures
        match r {
            Ok(i) => auth_check(auth_header@, *verdict, auths@) == Ok::<int, AuthError>(i as int)
                && i < auths.len(),
            Err(e) => auth_check(auth_header@, *verdict, auths@) == Err::<int, AuthError>(e),
        },
{
    let token = match strip_bearer(auth_header) {
        Some(t) => t,
        None => {
            return Err(AuthError::BadAuthHeaderFormat);
        },
    };
    match check_token(token.as_str(), verdict, auths) {
        Some(i) => Ok(i),
        None => Err(AuthError::Unauthorized),
    }
}

/// A token that is let in is let in by a way that the server is configured
/// with: without any way, nobody is let in.
pub proof fn lemma_no_way_no_entry(header: Seq<char>, verdict: Verdict)
    ensures
        auth_check(header, verdict, Seq::empty()) is Err,
{
}

} // verus!
