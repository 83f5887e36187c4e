//! The credential store: authentication material shared by all requests.

use vstd::prelude::*;
use crate::text::strings_view;

verus! {

/// The authentication material a client was constructed with. Once a secret
/// is known it is never discarded; a freshly minted token always replaces
/// the cached one in place, upgrading `SecretOnly` to `SecretAndToken` but
/// never downgrading.
pub enum Credentials {
    /// Can mint tokens; starts with none cached.
    SecretOnly { client_secret: String, scopes: String },
    /// Has a token; cannot mint a new one if it expires.
    TokenOnly { token: String },
    /// Has a cached token and can mint a replacement.
    SecretAndToken { client_secret: String, scopes: String, token: String },
}

/// Mathematical model of a [`Credentials`] store.
pub enum CredentialsV {
    SecretOnly { client_secret: Seq<char>, scopes: Seq<char> },
    TokenOnly { token: Seq<char> },
    SecretAndToken { client_secret: Seq<char>, scopes: Seq<char>, token: Seq<char> },
}

impl View for Credentials {
    type V = CredentialsV;

    open spec fn view(&self) -> CredentialsV {
        match self {
            Credentials::SecretOnly { client_secret, scopes } => CredentialsV::SecretOnly {
                client_secret: client_secret@,
                scopes: scopes@,
            },
            Credentials::TokenOnly { token } => CredentialsV::TokenOnly { token: token@ },
            Credentials::SecretAndToken { client_secret, scopes, token } => {
                CredentialsV::SecretAndToken {
                    client_secret: client_secret@,
                    scopes: scopes@,
                    token: token@,
                }
            },
        }
    }
}

impl CredentialsV {
    /// The cached bearer token, if one is held.
    pub open spec fn cached_token(self) -> Option<Seq<char>> {
        match self {
            CredentialsV::SecretOnly { .. } => None,
            CredentialsV::TokenOnly { token } => Some(token),
            CredentialsV::SecretAndToken { token, .. } => Some(token),
        }
    }

    /// The minting material, if held: client secret and joined scopes.
    pub open spec fn secret(self) -> Option<(Seq<char>, Seq<char>)> {
        match self {
            CredentialsV::SecretOnly { client_secret, scopes } => Some((client_secret, scopes)),
            CredentialsV::TokenOnly { .. } => None,
            CredentialsV::SecretAndToken { client_secret, scopes, .. } => Some(
                (client_secret, scopes),
            ),
        }
    }
}

/// The store after a freshly minted token is cached: the token is replaced
/// in place and a known secret is kept.
pub open spec fn set_token_spec(c: CredentialsV, token: Seq<char>) -> CredentialsV {
    match c {
        CredentialsV::SecretOnly { client_secret, scopes } => CredentialsV::SecretAndToken {
            client_secret,
            scopes,
            token,
        },
        CredentialsV::TokenOnly { .. } => CredentialsV::TokenOnly { token },
        CredentialsV::SecretAndToken { client_secret, scopes, .. } => {
            CredentialsV::SecretAndToken { client_secret, scopes, token }
        },
    }
}

/// The scope names joined with single spaces, in order.
pub open spec fn join_spaced(parts: Seq<Seq<char>>) -> Seq<char>
    decreases parts.len(),
{
    if parts.len() == 0 {
        Seq::empty()
    } else if parts.len() == 1 {
        parts[0]
    } else {
        join_spaced(parts.drop_last()) + " "@ + parts.last()
    }
}

fn join_with_spaces(parts: &Vec<String>) -> (r: String)
    ensures
        r@ == join_spaced(strings_view(parts@)),
{
    let mut r = String::new();
    let mut i: usize = 0;
    while i < parts.len()
        invariant
            0 <= i <= parts@.len(),
            r@ == join_spaced(strings_view(parts@).take(i as int)),
        decreases parts@.len() - i,
    {
        if i > 0 {
            r.append(" ");
        }
        r.append(parts[i].as_str());
        proof {
            let views = strings_view(parts@);
            assert(views.take(i + 1).drop_last() =~= views.take(i as int));
            assert(views.take(i + 1).last() == parts@[i as int]@);
        }
        i += 1;
    }
    proof {
        assert(strings_view(parts@).take(parts@.len() as int) =~= strings_view(parts@));
    }
    r
}

impl Credentials {
    /// Use the given client secret to mint tokens; the scope names are
    /// joined with spaces as the mint request's `scope` parameter.
    pub fn from_client_secret(client_secret: String, scopes: Vec<String>) -> (c: Credentials)
        ensures
            c@ == (CredentialsV::SecretOnly {
                client_secret: client_secret@,
                scopes: join_spaced(strings_view(scopes@)),
            }),
    {
        let scopes = join_with_spaces(&scopes);
        Credentials::SecretOnly { client_secret, scopes }
    }

    /// Use the given bearer token. When the server rejects it, the error is
    /// passed to the caller: no replacement can be minted.
    pub fn from_oauth_token(oauth_token: String) -> (c: Credentials)
        ensures
            c@ == (CredentialsV::TokenOnly { token: oauth_token@ }),
    {
        Credentials::TokenOnly { token: oauth_token }
    }

    /// Use the given bearer token, and mint a replacement with the client
    /// secret when the server rejects it.
    pub fn from_client_secret_and_oauth_token(
        client_secret: String,
        scopes: Vec<String>,
        oauth_token: String,
    ) -> (c: Credentials)
        ensures
            c@ == (CredentialsV::SecretAndToken {
                client_secret: client_secret@,
                scopes: join_spaced(strings_view(scopes@)),
                token: oauth_token@,
            }),
    {
        let scopes = join_with_spaces(&scopes);
        Credentials::SecretAndToken { client_secret, scopes, token: oauth_token }
    }

    /// Cache a freshly minted token, keeping any known secret.
    pub fn set_token(&mut self, token: String)
        ensures
            final(self)@ == set_token_spec(old(self)@, token@),
    {
        match self {
            Credentials::SecretOnly { client_secret, scopes } => {
                let cs = client_secret.clone();
                let sc = scopes.clone();
                *self = Credentials::SecretAndToken { client_secret: cs, scopes: sc, token };
            },
            Credentials::TokenOnly { .. } => {
                *self = Credentials::TokenOnly { token };
            },
            Credentials::SecretAndToken { client_secret, scopes, .. } => {
                let cs = client_secret.clone();
                let sc = scopes.clone();
                *self = Credentials::SecretAndToken { client_secret: cs, scopes: sc, token };
            },
        }
    }
}

} // verus!
