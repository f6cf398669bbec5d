//! OpenFGA client settings: endpoint, store, authorization model, token
//! and timeout, checked when the client is built.

use vstd::prelude::*;
use std::time::Duration;
use crate::text::{opt_view, opt_str_view, to_string, push_str};
use crate::time::{duration_from_millis, duration_from_millis_spec};

verus! {

/// Failure of an OpenFGA operation.
#[derive(Debug, Clone)]
pub enum Error {
    /// Invalid settings (empty endpoint or store id).
    InvalidConfig(String),
    /// Network failure or timeout.
    Connection(String),
    /// Error answered by the OpenFGA server.
    Api(String),
}

/// The text of an error.
pub open spec fn error_text(e: Error) -> Seq<char> {
    match e {
        Error::InvalidConfig(m) => "OpenFGA config error: "@ + m@,
        Error::Connection(m) => "OpenFGA connection error: "@ + m@,
        Error::Api(m) => "OpenFGA API error: "@ + m@,
    }
}

impl Error {
    /// The text of the error.
    pub fn message(&self) -> (r: String)
        ensures
            r@ == error_text(*self),
    {
        let (prefix, m) = match self {
            Error::InvalidConfig(m) => ("OpenFGA config error: ", m),
            Error::Connection(m) => ("OpenFGA connection error: ", m),
            Error::Api(m) => ("OpenFGA API error: ", m),
        };
        let mut out = to_string(prefix);
        push_str(&mut out, m.as_str());
        out
    }
}

/// What an authorization does when OpenFGA cannot decide.
#[derive(Debug, Clone, Copy, PartialEq, Eq, Structural)]
pub enum FailMode {
    /// Allow the request.
    Open,
    /// Deny the request.
    Closed,
}

/// A client of an OpenFGA store.
#[derive(Debug, Clone)]
pub struct OpenFgaClient {
    endpoint: String,
    store_id: String,
    authorization_model_id: Option<String>,
    api_token: Option<String>,
    timeout: Duration,
}

/// The settings error for an empty endpoint or store id, if any.
pub open spec fn settings_error(endpoint: Seq<char>, store_id: Seq<char>) -> Option<Seq<char>> {
    if endpoint.len() == 0 {
        Some("OpenFGA endpoint cannot be empty"@)
    } else if store_id.len() == 0 {
        Some("OpenFGA store_id cannot be empty"@)
    } else {
        None
    }
}

/// Checks that neither the endpoint nor the store id is empty.
fn check_settings(endpoint: &str, store_id: &str) -> (r: Result<(), Error>)
    ensures
        match settings_error(endpoint@, store_id@) {
            Some(m) => r matches Err(Error::InvalidConfig(s)) && s@ == m,
            None => r is Ok,
        },
{
    if endpoint.is_empty() {
        return Err(Error::InvalidConfig(to_string("OpenFGA endpoint cannot be empty")));
    }
    if store_id.is_empty() {
        return Err(Error::InvalidConfig(to_string("OpenFGA store_id cannot be empty")));
    }
    Ok(())
}

impl OpenFgaClient {
    /// The endpoint.
    pub closed spec fn endpoint_view(self) -> Seq<char> {
        self.endpoint@
    }

    /// The store id.
    pub closed spec fn store_id_view(self) -> Seq<char> {
        self.store_id@
    }

    /// The authorization model id.
    pub closed spec fn model_id_view(self) -> Option<Seq<char>> {
        opt_view(self.authorization_model_id)
    }

    /// The API token.
    pub closed spec fn api_token_view(self) -> Option<Seq<char>> {
        opt_view(self.api_token)
    }

    /// The request timeout.
    pub closed spec fn timeout_view(self) -> Duration {
        self.timeout
    }

    /// A client of a store at an endpoint, with no model id, no token and
    /// a 100 ms timeout; refused when either is empty.
    pub fn new(endpoint: &str, store_id: &str) -> (r: Result<Self, Error>)
        ensures
            match settings_error(endpoint@, store_id@) {
                Some(m) => r matches Err(Error::InvalidConfig(s)) && s@ == m,
                None => r matches Ok(c) && c.endpoint_view() == endpoint@ && c.store_id_view()
                    == store_id@ && c.model_id_view() is None && c.api_token_view() is None
                    && c.timeout_view() == duration_from_millis_spec(100),
            },
    {
        check_settings(endpoint, store_id)?;
        Ok(
            OpenFgaClient {
                endpoint: to_string(endpoint),
                store_id: to_string(store_id),
                authorization_model_id: None,
                api_token: None,
                timeout: duration_from_millis(100),
            },
        )
    }

    /// The endpoint.
    pub fn endpoint(&self) -> (r: &str)
        ensures
            r@ == self.endpoint_view(),
    {
        self.endpoint.as_str()
    }

    /// The store id.
    pub fn store_id(&self) -> (r: &str)
        ensures
            r@ == self.store_id_view(),
    {
        self.store_id.as_str()
    }

    /// The authorization model id, if set.
    pub fn authorization_model_id(&self) -> (r: Option<&str>)
        ensures
            opt_str_view(r) == self.model_id_view(),
    {
        match &self.authorization_model_id {
            Some(s) => Some(s.as_str()),
            None => None,
        }
    }

    /// The API token, if set.
    pub fn api_token(&self) -> (r: Option<&str>)
        ensures
            opt_str_view(r) == self.api_token_view(),
    {
        match &self.api_token {
            Some(s) => Some(s.as_str()),
            None => None,
        }
    }

    /// The request timeout.
    pub fn timeout(&self) -> (r: Duration)
        ensures
            r == self.timeout_view(),
    {
        self.timeout
    }

    /// A builder for a client of a store at an endpoint.
    pub fn builder(endpoint: &str, store_id: &str) -> (r: OpenFgaClientBuilder)
        ensures
            r@ == (BuilderView {
                endpoint: endpoint@,
                store_id: store_id@,
                authorization_model_id: None,
                api_token: None,
                timeout_ms: 100,
            }),
    {
        OpenFgaClientBuilder::new(endpoint, store_id)
    }
}

/// The settings collected by a builder.
pub ghost struct BuilderView {
    pub endpoint: Seq<char>,
    pub store_id: Seq<char>,
    pub authorization_model_id: Option<Seq<char>>,
    pub api_token: Option<Seq<char>>,
    pub timeout_ms: u64,
}

/// Builder of an OpenFGA client.
#[derive(Debug, Clone)]
pub struct OpenFgaClientBuilder {
    endpoint: String,
    store_id: String,
    authorization_model_id: Option<String>,
    api_token: Option<String>,
    timeout_ms: u64,
}

impl View for OpenFgaClientBuilder {
    type V = BuilderView;

    closed spec fn view(&self) -> BuilderView {
        BuilderView {
            endpoint: self.endpoint@,
            store_id: self.store_id@,
            authorization_model_id: opt_view(self.authorization_model_id),
            api_token: opt_view(self.api_token),
            timeout_ms: self.timeout_ms,
        }
    }
}

impl OpenFgaClientBuilder {
    /// A builder with the required settings, no model id, no token and a
    /// 100 ms timeout.
    pub fn new(endpoint: &str, store_id: &str) -> (r: Self)
        ensures
            r@ == (BuilderView {
                endpoint: endpoint@,
                store_id: store_id@,
                authorization_model_id: None,
                api_token: None,
                timeout_ms: 100,
            }),
    {
        OpenFgaClientBuilder {
            endpoint: to_string(endpoint),
            store_id: to_string(store_id),
            authorization_model_id: None,
            api_token: None,
            timeout_ms: 100,
        }
    }

    /// Sets the authorization model id.
    pub fn authorization_model_id(self, model_id: &str) -> (r: Self)
        ensures
            r@ == (BuilderView { authorization_model_id: Some(model_id@), ..self@ }),
    {
        OpenFgaClientBuilder { authorization_model_id: Some(to_string(model_id)), ..self }
    }

    /// Sets the API token.
    pub fn api_token(self, token: &str) -> (r: Self)
        ensures
            r@ == (BuilderView { api_token: Some(token@), ..self@ }),
    {
        OpenFgaClientBuilder { api_token: Some(to_string(token)), ..self }
    }

    /// Sets the timeout in milliseconds.
    pub fn timeout_ms(self, timeout: u64) -> (r: Self)
        ensures
            r@ == (BuilderView { timeout_ms: timeout, ..self@ }),
    {
        OpenFgaClientBuilder { timeout_ms: timeout, ..self }
    }

    /// The client with the collected settings; refused when the endpoint
    /// or the store id is empty.
    pub fn build(self) -> (r: Result<OpenFgaClient, Error>)
        ensures
            match settings_error(self@.endpoint, self@.store_id) {
                Some(m) => r matches Err(Error::InvalidConfig(s)) && s@ == m,
                None => r matches Ok(c) && c.endpoint_view() == self@.endpoint && c.store_id_view()
                    == self@.store_id && c.model_id_view() == self@.authorization_model_id
                    && c.api_token_view() == self@.api_token && c.timeout_view()
                    == duration_from_millis_spec(self@.timeout_ms),
            },
    {
        check_settings(self.endpoint.as_str(), self.store_id.as_str())?;
        let timeout = duration_from_millis(self.timeout_ms);
        Ok(
            OpenFgaClient {
                endpoint: self.endpoint,
                store_id: self.store_id,
                authorization_model_id: self.authorization_model_id,
                api_token: self.api_token,
                timeout,
            },
        )
    }
}

} // verus!
