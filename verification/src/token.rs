//! The token authority: given the credential store and an optional
//! triggering failure, decide how a valid bearer token is to be had, and
//! apply the outcome of a mint exchange to the store. The one network
//! round-trip a decision may call for — the client-credentials mint — is
//! performed outside and its outcome handed back.

use vstd::prelude::*;
use crate::credentials::{Credentials, CredentialsV, set_token_spec};
use crate::error::{
    Error,
    ErrorV,
    opt_error_view,
    classify_status,
    classify_status_spec,
    res_string_view,
};
use crate::json::{access_token_of, extract_access_token};

verus! {

/// What the token authority decides for one `obtain` call.
pub enum TokenPlan {
    /// A token is cached and nothing forces a replacement: hand it out,
    /// with no network access.
    UseCached { token: String },
    /// Perform exactly one client-credentials mint with this material.
    Mint { client_secret: String, scopes: String },
    /// Surface this error; no network access.
    Fail { error: Error },
}

/// Mathematical model of a [`TokenPlan`].
pub enum TokenPlanV {
    UseCached { token: Seq<char> },
    Mint { client_secret: Seq<char>, scopes: Seq<char> },
    Fail { error: ErrorV },
}

impl View for TokenPlan {
    type V = TokenPlanV;

    open spec fn view(&self) -> TokenPlanV {
        match self {
            TokenPlan::UseCached { token } => TokenPlanV::UseCached { token: token@ },
            TokenPlan::Mint { client_secret, scopes } => TokenPlanV::Mint {
                client_secret: client_secret@,
                scopes: scopes@,
            },
            TokenPlan::Fail { error } => TokenPlanV::Fail { error: error@ },
        }
    }
}

/// The token authority's decision rule. A failure other than a rejected
/// token is surfaced unchanged; with no triggering failure a cached token
/// is reused with no network access; a rejected token with no secret at
/// hand is surfaced to the caller; otherwise exactly one mint is planned.
pub open spec fn obtain_plan_spec(c: CredentialsV, from_error: Option<ErrorV>) -> TokenPlanV {
    match from_error {
        Some(e) => if !(e is Unauthorized) {
            TokenPlanV::Fail { error: e }
        } else {
            match c {
                CredentialsV::TokenOnly { .. } => TokenPlanV::Fail { error: e },
                CredentialsV::SecretOnly { client_secret, scopes } => TokenPlanV::Mint {
                    client_secret,
                    scopes,
                },
                CredentialsV::SecretAndToken { client_secret, scopes, .. } => TokenPlanV::Mint {
                    client_secret,
                    scopes,
                },
            }
        },
        None => match c {
            CredentialsV::SecretOnly { client_secret, scopes } => TokenPlanV::Mint {
                client_secret,
                scopes,
            },
            CredentialsV::TokenOnly { token } => TokenPlanV::UseCached { token },
            CredentialsV::SecretAndToken { token, .. } => TokenPlanV::UseCached { token },
        },
    }
}

/// Decides how a bearer token is to be had. `from_error` is `None` on a
/// first-time request, or the classified failure the caller just received.
pub fn obtain_plan(creds: &Credentials, from_error: Option<Error>) -> (p: TokenPlan)
    ensures
        p@ == obtain_plan_spec(creds@, opt_error_view(from_error)),
{
    match from_error {
        Some(e) => {
            if !e.is_invalid_oauth_token() {
                TokenPlan::Fail { error: e }
            } else {
                match creds {
                    Credentials::TokenOnly { .. } => TokenPlan::Fail { error: e },
                    Credentials::SecretOnly { client_secret, scopes } => TokenPlan::Mint {
                        client_secret: client_secret.clone(),
                        scopes: scopes.clone(),
                    },
                    Credentials::SecretAndToken { client_secret, scopes, .. } => TokenPlan::Mint {
                        client_secret: client_secret.clone(),
                        scopes: scopes.clone(),
                    },
                }
            }
        },
        None => match creds {
            Credentials::SecretOnly { client_secret, scopes } => TokenPlan::Mint {
                client_secret: client_secret.clone(),
                scopes: scopes.clone(),
            },
            Credentials::TokenOnly { token } => TokenPlan::UseCached { token: token.clone() },
            Credentials::SecretAndToken { token, .. } => TokenPlan::UseCached {
                token: token.clone(),
            },
        },
    }
}

/// The store and the call's result after one mint exchange: a success
/// response carrying a token caches it in place and returns it; a success
/// response without one is the decode failure; any other outcome is
/// classified, the store untouched.
pub open spec fn mint_outcome_spec(c: CredentialsV, status: Option<u16>, body: Seq<char>) -> (
    CredentialsV,
    Result<Seq<char>, ErrorV>,
) {
    if status matches Some(s) && 200 <= s < 300 {
        match access_token_of(body) {
            Some(token) => (set_token_spec(c, token), Ok(token)),
            None => (c, Err(ErrorV::Decode { body })),
        }
    } else {
        (c, Err(classify_status_spec(status, body)))
    }
}

/// Applies the outcome of the mint exchange a `Mint` plan called for. On a
/// success response the minted token is extracted, cached in the store in
/// one atomic replacement, and returned; a mint failure is terminal for
/// the call — classified and returned with the store untouched, never
/// retried.
pub fn apply_mint_outcome(creds: &mut Credentials, status: Option<u16>, body: String) -> (r: Result<
    String,
    Error,
>)
    ensures
        final(creds)@ == mint_outcome_spec(old(creds)@, status, body@).0,
        res_string_view(r) == mint_outcome_spec(old(creds)@, status, body@).1,
{
    let is_success = match status {
        Some(s) => s >= 200 && s < 300,
        None => false,
    };
    if is_success {
        match extract_access_token(body.as_str()) {
            Some(token) => {
                creds.set_token(token.clone());
                Ok(token)
            },
            None => Err(Error::Decode { body }),
        }
    } else {
        Err(classify_status(status, body))
    }
}

/// Law: for every credential store holding a cached token, asking with no
/// triggering failure reuses the cache — the plan is `UseCached` with that
/// very token, never a mint.
pub proof fn lemma_cached_token_is_reused(c: CredentialsV)
    requires
        c.cached_token() is Some,
    ensures
        obtain_plan_spec(c, None) == (TokenPlanV::UseCached { token: c.cached_token()->0 }),
{
}

/// Law: for every store holding both secret and token, a rejected-token
/// failure plans exactly one mint with the stored material, and caching the
/// minted token replaces only the token — secret and scopes are unchanged.
pub proof fn lemma_unauthorized_with_secret_remints(
    c: CredentialsV,
    body: Seq<char>,
    minted: Seq<char>,
)
    requires
        c matches CredentialsV::SecretAndToken { .. },
    ensures
        c matches CredentialsV::SecretAndToken { client_secret, scopes, .. } ==> {
            &&& obtain_plan_spec(c, Some(ErrorV::Unauthorized { body })) == (TokenPlanV::Mint {
                client_secret,
                scopes,
            })
            &&& set_token_spec(c, minted) == (CredentialsV::SecretAndToken {
                client_secret,
                scopes,
                token: minted,
            })
        },
{
}

/// Law: applying a success mint response that carries a token leaves the
/// store with exactly that token cached, its minting material unchanged,
/// and returns that very token.
pub proof fn lemma_mint_success_caches(c: CredentialsV, status: u16, body: Seq<char>)
    requires
        200 <= status < 300,
    ensures
        access_token_of(body) matches Some(token) ==> {
            let (after, minted) = mint_outcome_spec(c, Some(status), body);
            &&& after.cached_token() == Some(token)
            &&& after.secret() == c.secret()
            &&& minted == Ok::<Seq<char>, ErrorV>(token)
        },
{
}

/// Law: for a token-only store, a rejected-token failure is surfaced
/// unchanged — reauthentication is impossible and no mint is planned.
pub proof fn lemma_unauthorized_without_secret_fails(c: CredentialsV, body: Seq<char>)
    requires
        c matches CredentialsV::TokenOnly { .. },
    ensures
        obtain_plan_spec(c, Some(ErrorV::Unauthorized { body })) == (TokenPlanV::Fail {
            error: ErrorV::Unauthorized { body },
        }),
{
}

} // verus!
