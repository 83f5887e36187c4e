//! The client state and the request executor's decision logic: the
//! rate-limit gate, response classification (retry, reauthenticate, fail or
//! succeed) and the construction of the requests the outside loop performs.

use vstd::prelude::*;
use vstd::string::StringSliceAdditionalSpecFns;
use crate::credentials::{Credentials, CredentialsV};
use crate::error::{Error, ErrorV, classify_status_spec};
use crate::json::{data_part_of, split_data};
use crate::text::{is_valid_header_value, valid_header_bytes, pairs_view};
use crate::HELIX_BASE_URL;

verus! {

/// URL of the client-credentials token-mint endpoint.
pub const TOKEN_URL: &'static str = "https://id.twitch.tv/oauth2/token";

/// The entry point to the API: everything that outlives a single call.
/// Callers that share one client across concurrent requests must read and
/// write it under a reader/writer discipline; every mutation here replaces
/// whole fields, so a serialized writer is atomic with respect to readers.
pub struct Client {
    /// Sent as the `User-Agent` header of every request.
    pub user_agent: String,
    /// Sent as the `Client-ID` header and named in mint requests.
    pub client_id: String,
    /// If the server signalled throttling: no request may be sent before
    /// this instant (milliseconds since the epoch). Cleared implicitly once
    /// the current time passes it.
    pub rate_limit_reset: Option<u64>,
    /// The shared authentication material.
    pub credentials: Credentials,
}

/// Mathematical model of a [`Client`].
pub struct ClientV {
    pub user_agent: Seq<char>,
    pub client_id: Seq<char>,
    pub rate_limit_reset: Option<u64>,
    pub credentials: CredentialsV,
}

impl View for Client {
    type V = ClientV;

    open spec fn view(&self) -> ClientV {
        ClientV {
            user_agent: self.user_agent@,
            client_id: self.client_id@,
            rate_limit_reset: self.rate_limit_reset,
            credentials: self.credentials@,
        }
    }
}

impl Client {
    /// Constructs a client. Both header values are checked for characters
    /// illegal in an HTTP header; an offending value is a construction-time
    /// error, and nothing else is.
    pub fn new(user_agent: &str, client_id: &str, credentials: Credentials) -> (r: Result<
        Client,
        Error,
    >)
        ensures
            valid_header_bytes(user_agent.spec_bytes()) && valid_header_bytes(
                client_id.spec_bytes(),
            ) ==> (r matches Ok(c) && c@ == (ClientV {
                user_agent: user_agent@,
                client_id: client_id@,
                rate_limit_reset: None,
                credentials: credentials@,
            })),
            !(valid_header_bytes(user_agent.spec_bytes()) && valid_header_bytes(
                client_id.spec_bytes(),
            )) ==> (r matches Err(e) && e@ == ErrorV::Configuration),
    {
        if !is_valid_header_value(user_agent) || !is_valid_header_value(client_id) {
            return Err(Error::Configuration);
        }
        Ok(
            Client {
                user_agent: user_agent.to_owned(),
                client_id: client_id.to_owned(),
                rate_limit_reset: None,
                credentials,
            },
        )
    }
}

/// What the rate-limit gate says before a send.
#[derive(PartialEq, Eq, Structural)]
pub enum GateStep {
    /// A rate-limit reset lies in the future: suspend until that instant,
    /// then ask again before sending.
    Wait { until: u64 },
    /// Nothing forbids sending now.
    Go,
}

/// The rate-limit gate: sending is allowed exactly when no reset instant is
/// known or the known one has passed.
pub open spec fn gate_spec(rate_limit_reset: Option<u64>, now: u64) -> GateStep {
    match rate_limit_reset {
        Some(t) => if t > now {
            GateStep::Wait { until: t }
        } else {
            GateStep::Go
        },
        None => GateStep::Go,
    }
}

/// Law: while the rate-limit state is set to a future instant no send is
/// allowed; once the instant has passed, one is.
pub proof fn lemma_rate_limit_gates_sends(reset: u64, now: u64)
    ensures
        now < reset ==> gate_spec(Some(reset), now) == (GateStep::Wait { until: reset }),
        now >= reset ==> gate_spec(Some(reset), now) == GateStep::Go,
        gate_spec(None, now) == GateStep::Go,
{
}

/// What the executor decides about one completed exchange.
pub enum Decision {
    /// A success status: this raw body is to be decoded.
    Success { body: String },
    /// A transient failure: try the same request again, behind the
    /// rate-limit wait. Retries are immediate and uncapped, so an
    /// unreachable server causes indefinite retry.
    Retry,
    /// The token was rejected: obtain a token from this failure, then try
    /// again with the new token.
    Reauthenticate { error: Error },
    /// A terminal failure: surface this error at once.
    Fail { error: Error },
}

/// Mathematical model of a [`Decision`].
pub enum DecisionV {
    Success { body: Seq<char> },
    Retry,
    Reauthenticate { error: ErrorV },
    Fail { error: ErrorV },
}

impl View for Decision {
    type V = DecisionV;

    open spec fn view(&self) -> DecisionV {
        match self {
            Decision::Success { body } => DecisionV::Success { body: body@ },
            Decision::Retry => DecisionV::Retry,
            Decision::Reauthenticate { error } => DecisionV::Reauthenticate { error: error@ },
            Decision::Fail { error } => DecisionV::Fail { error: error@ },
        }
    }
}

/// The executor's classification rule for one completed exchange: 2xx
/// succeeds; 401 warrants one reauthentication; any other 4xx is terminal;
/// 5xx, any remaining status and transport failures are retried.
pub open spec fn handle_response_spec(status: Option<u16>, body: Seq<char>) -> DecisionV {
    match status {
        None => DecisionV::Retry,
        Some(s) => if 200 <= s < 300 {
            DecisionV::Success { body }
        } else if s == 401 {
            DecisionV::Reauthenticate { error: ErrorV::Unauthorized { body } }
        } else if 400 <= s < 500 {
            DecisionV::Fail { error: ErrorV::ClientError { status: s, body } }
        } else {
            DecisionV::Retry
        },
    }
}

/// Law: on an exchange that did not succeed, the executor's decision
/// follows the failure classification exactly — it retries precisely the
/// outcomes classified transient, reauthenticates precisely on the
/// rejected-token failure, and fails precisely on the other client
/// errors, each decision carrying that very classification.
pub proof fn lemma_decisions_follow_classification(status: Option<u16>, body: Seq<char>)
    ensures
        !(status matches Some(s) && 200 <= s < 300) ==> match handle_response_spec(status, body) {
            DecisionV::Retry => classify_status_spec(status, body) is ServerOrTransport,
            DecisionV::Reauthenticate { error } => error == classify_status_spec(status, body)
                && error is Unauthorized,
            DecisionV::Fail { error } => error == classify_status_spec(status, body)
                && error is ClientError,
            DecisionV::Success { .. } => false,
        },
{
}

impl Client {
    /// The rate-limit gate, read against the current instant.
    pub fn gate(&self, now: u64) -> (g: GateStep)
        ensures
            g == gate_spec(self@.rate_limit_reset, now),
    {
        match self.rate_limit_reset {
            Some(t) => if t > now {
                GateStep::Wait { until: t }
            } else {
                GateStep::Go
            },
            None => GateStep::Go,
        }
    }

    /// Records rate-limit metadata carried by a response, success or
    /// failure alike, so that every later call observes the cooldown.
    /// Nothing else of the client changes.
    pub fn note_rate_limit(&mut self, reset: Option<u64>)
        ensures
            final(self)@ == (ClientV {
                rate_limit_reset: if reset is Some {
                    reset
                } else {
                    old(self)@.rate_limit_reset
                },
                ..old(self)@
            }),
    {
        if let Some(t) = reset {
            self.rate_limit_reset = Some(t);
        }
    }

    /// One classification step of the request executor: records any
    /// rate-limit metadata, then classifies the exchange's outcome.
    /// `status` is `None` for a transport-level failure.
    pub fn handle_response(
        &mut self,
        status: Option<u16>,
        body: String,
        rate_limit_reset: Option<u64>,
    ) -> (d: Decision)
        ensures
            d@ == handle_response_spec(status, body@),
            final(self)@ == (ClientV {
                rate_limit_reset: if rate_limit_reset is Some {
                    rate_limit_reset
                } else {
                    old(self)@.rate_limit_reset
                },
                ..old(self)@
            }),
    {
        self.note_rate_limit(rate_limit_reset);
        match status {
            None => Decision::Retry,
            Some(s) => if s >= 200 && s < 300 {
                Decision::Success { body }
            } else if s == 401 {
                Decision::Reauthenticate { error: Error::Unauthorized { body } }
            } else if s >= 400 && s < 500 {
                Decision::Fail { error: Error::ClientError { status: s, body } }
            } else {
                Decision::Retry
            },
        }
    }

    /// The query of the client-credentials mint request the plan calls
    /// for, to be `POST`ed to [`TOKEN_URL`].
    pub fn mint_request(&self, client_secret: &String, scopes: &String) -> (q: Vec<
        (String, String),
    >)
        ensures
            pairs_view(q@) == seq![
                ("client_id"@, self@.client_id),
                ("client_secret"@, client_secret@),
                ("grant_type"@, "client_credentials"@),
                ("scope"@, scopes@),
            ],
    {
        let mut q: Vec<(String, String)> = Vec::new();
        q.push((String::from_str("client_id"), self.client_id.clone()));
        q.push((String::from_str("client_secret"), client_secret.clone()));
        q.push((String::from_str("grant_type"), String::from_str("client_credentials")));
        q.push((String::from_str("scope"), scopes.clone()));
        proof {
            assert(pairs_view(q@) =~= seq![
                ("client_id"@, self@.client_id),
                ("client_secret"@, client_secret@),
                ("grant_type"@, "client_credentials"@),
                ("scope"@, scopes@),
            ]);
        }
        q
    }
}

/// What decoding a success body yields for a single-object call: the raw
/// text of its `data` field, or the decode failure preserving the body.
pub open spec fn decode_data_spec(body: Seq<char>) -> Result<Seq<char>, ErrorV> {
    match data_part_of(body) {
        Some(d) => Ok(d),
        None => Err(ErrorV::Decode { body }),
    }
}

/// Splits a success body into the raw text of its `data` field — the
/// shape every response owes. A body without that shape is the decode
/// failure, carrying the raw body for diagnostics.
pub fn decode_data(body: String) -> (r: Result<String, Error>)
    ensures
        match decode_data_spec(body@) {
            Ok(d) => r matches Ok(s) && s@ == d,
            Err(e) => r matches Err(err) && err@ == e,
        },
{
    match split_data(body.as_str()) {
        Some(d) => Ok(d),
        None => Err(Error::Decode { body }),
    }
}

/// An endpoint path made absolute against the API's base URL.
pub fn helix_url(path: &str) -> (r: String)
    ensures
        r@ == HELIX_BASE_URL@ + path@,
{
    let mut r = String::from_str(HELIX_BASE_URL);
    r.append(path);
    r
}

} // verus!
