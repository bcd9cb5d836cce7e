use vstd::prelude::*;

use crate::client::{spec_resolved_url, BinanceAPI, PreparedRequest};
use crate::endpoints::HttpMethod;
use crate::errors::ApiError;
use crate::json::json_str_field;
use crate::params::Params;

verus! {

/// The listen-key session of a client: absent for a public-only client,
/// active once a key was generated.
#[derive(Debug, Clone)]
pub enum SessionState {
    Absent,
    Active(String),
}

/// The three listen-key operations the exchange offers.
#[derive(Debug, Clone, Copy, PartialEq, Eq, Structural)]
pub enum SessionOp {
    Generate,
    Renew,
    Revoke,
}

/// The key a session carries: the active key, or empty while absent.
pub open spec fn spec_session_key(s: SessionState) -> Seq<char> {
    match s {
        SessionState::Absent => Seq::empty(),
        SessionState::Active(k) => k@,
    }
}

/// What a generate response yields once the `listenKey` field was looked
/// up: the field's string value, or a malformed response where the field
/// is missing or not a string.
pub fn listen_key_from_field(field: Option<String>) -> (r: Result<String, ApiError>)
    ensures
        field matches Some(k) ==> (r matches Ok(s) && s == k),
        field is None ==> (r matches Err(e) && e is MalformedResponse),
{
    match field {
        Some(k) => Ok(k),
        None => Err(ApiError::MalformedResponse),
    }
}

/// Reads a listen-key response. Generate extracts the `listenKey` field
/// (exact field-name match) and fails only as a malformed response; renew
/// and revoke yield the empty string on any well-formed response.
pub fn listen_key_response(method: SessionOp, parsed: &serde_json::Value) -> (r: Result<
    String,
    ApiError,
>)
    ensures
        !(method is Generate) ==> (r matches Ok(s) && s@ == Seq::<char>::empty()),
        method is Generate ==> (r matches Ok(_) || (r matches Err(e)
            && e is MalformedResponse)),
{
    match method {
        SessionOp::Generate => listen_key_from_field(json_str_field(parsed, "listenKey")),
        _ => Ok(String::new()),
    }
}

impl BinanceAPI {
    /// Both credentials are non-empty, so the client is entitled to a
    /// private session.
    pub fn needs_session(&self) -> (b: bool)
        ensures
            b == (self.api_key@.len() > 0 && self.secret_key@.len() > 0),
    {
        !self.api_key.as_str().is_empty() && !self.secret_key.as_str().is_empty()
    }

    /// Builds the listen-key request: generate maps to POST, renew to
    /// PUT, revoke to DELETE, all unsigned, on the user-data-stream
    /// endpoint of the account mode. Renew and revoke carry the current
    /// key as the one parameter.
    pub fn listen_key_request(&self, method: SessionOp) -> (r: PreparedRequest)
        requires
            self.wf(),
        ensures
            r.method == (match method {
                SessionOp::Generate => HttpMethod::Post,
                SessionOp::Renew => HttpMethod::Put,
                SessionOp::Revoke => HttpMethod::Delete,
            }),
            r.url@ == spec_resolved_url(
                self.account_type,
                "/api/v3/userDataStream"@,
                "/fapi/v1/listenKey"@,
            ),
            method is Generate ==> r.query@ == Seq::<(Seq<char>, Seq<char>)>::empty(),
            !(method is Generate) ==> r.query@ == seq![
                ("listenKey"@, spec_session_key(self.session)),
            ],
            r.api_key@ == self.api_key@,
    {
        let url = self.generate_exchange_url(("/api/v3/userDataStream", "/fapi/v1/listenKey"));
        let http_method = match method {
            SessionOp::Generate => HttpMethod::Post,
            SessionOp::Renew => HttpMethod::Put,
            SessionOp::Revoke => HttpMethod::Delete,
        };
        let mut p = Params::new();
        match method {
            SessionOp::Generate => {},
            _ => {
                let key = match &self.session {
                    SessionState::Absent => String::new(),
                    SessionState::Active(k) => k.clone(),
                };
                p.append_pair("listenKey".to_owned(), key);
                proof {
                    assert(p@ =~= seq![("listenKey"@, spec_session_key(self.session))]);
                }
            },
        }
        PreparedRequest { method: http_method, url, query: p, api_key: self.api_key.clone() }
    }

    /// The one session call construction owes: the generate request,
    /// exactly while both credentials are non-empty and no session is
    /// active yet. Once a key is installed, no further bootstrap call is
    /// requested.
    pub fn bootstrap_request(&self) -> (r: Option<PreparedRequest>)
        requires
            self.wf(),
        ensures
            (r is Some) == (self.api_key@.len() > 0 && self.secret_key@.len() > 0
                && self.session is Absent),
            r matches Some(req) ==> {
                &&& req.method is Post
                &&& req.url@ == spec_resolved_url(
                    self.account_type,
                    "/api/v3/userDataStream"@,
                    "/fapi/v1/listenKey"@,
                )
                &&& req.query@ == Seq::<(Seq<char>, Seq<char>)>::empty()
                &&& req.api_key@ == self.api_key@
            },
    {
        let absent = match &self.session {
            SessionState::Absent => true,
            SessionState::Active(_) => false,
        };
        if self.needs_session() && absent {
            Some(self.listen_key_request(SessionOp::Generate))
        } else {
            None
        }
    }

    /// Installs a generated listen key: the session becomes active with
    /// that key; every other field keeps its value.
    pub fn install_listen_key(&mut self, listen_key: String)
        ensures
            *final(self) == (BinanceAPI {
                session: SessionState::Active(listen_key),
                ..*old(self)
            }),
    {
        self.session = SessionState::Active(listen_key);
    }

    /// Forgets the listen key after a revoke: the session becomes absent;
    /// every other field keeps its value.
    pub fn clear_listen_key(&mut self)
        ensures
            *final(self) == (BinanceAPI { session: SessionState::Absent, ..*old(self) }),
    {
        self.session = SessionState::Absent;
    }
}

} // verus!
