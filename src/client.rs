//! Client configuration, its builder, and what every request carries.
use crate::error::ClientError;
use crate::response::opt_text;
use crate::retry::{next_action, next_action_spec, RetryAction};
use vstd::prelude::*;
use vstd::string::StringExecFns;

verus! {

/// Production endpoint used when no base URL is given.
pub const DEFAULT_BASE_URL: &'static str = "https://api.zeroentropy.dev/v1";

/// Request timeout used when none is given, in milliseconds.
pub const DEFAULT_TIMEOUT_MS: u64 = 60_000;

/// Retry budget used when none is given.
pub const DEFAULT_MAX_RETRIES: u32 = 2;

/// Values that the process environment supplies as fallbacks.
pub struct EnvDefaults {
    /// The API key from the environment, if set.
    pub api_key: Option<String>,
    /// The base URL from the environment, if set.
    pub base_url: Option<String>,
}

impl EnvDefaults {
    /// An environment that supplies nothing.
    pub fn none() -> (r: EnvDefaults)
        ensures
            r.api_key is None,
            r.base_url is None,
    {
        EnvDefaults { api_key: None, base_url: None }
    }
}

/// The configuration of a client: immutable once built.
#[derive(Clone, Debug)]
pub struct Client {
    api_key: String,
    base_url: String,
    timeout_ms: u64,
    max_retries: u32,
}

/// Mathematical view of a client's configuration.
pub struct ClientView {
    pub api_key: Seq<char>,
    pub base_url: Seq<char>,
    pub timeout_ms: u64,
    pub max_retries: u32,
}

impl View for Client {
    type V = ClientView;

    closed spec fn view(&self) -> ClientView {
        ClientView {
            api_key: self.api_key@,
            base_url: self.base_url@,
            timeout_ms: self.timeout_ms,
            max_retries: self.max_retries,
        }
    }
}

/// Builder for a client with custom options.
pub struct ClientBuilder {
    api_key: Option<String>,
    base_url: Option<String>,
    timeout_ms: Option<u64>,
    max_retries: Option<u32>,
}

/// Mathematical view of a builder: what has been set so far.
pub struct ClientBuilderView {
    pub api_key: Option<Seq<char>>,
    pub base_url: Option<Seq<char>>,
    pub timeout_ms: Option<u64>,
    pub max_retries: Option<u32>,
}

impl View for ClientBuilder {
    type V = ClientBuilderView;

    closed spec fn view(&self) -> ClientBuilderView {
        ClientBuilderView {
            api_key: opt_text(self.api_key),
            base_url: opt_text(self.base_url),
            timeout_ms: self.timeout_ms,
            max_retries: self.max_retries,
        }
    }
}

/// The first of two optional texts that is present.
pub open spec fn first_of(a: Option<Seq<char>>, b: Option<Seq<char>>) -> Option<Seq<char>> {
    match a {
        Some(x) => Some(x),
        None => b,
    }
}

/// The API key that a build with `b` and `env` settles on, if any.
pub open spec fn resolved_api_key(b: ClientBuilderView, env_key: Option<Seq<char>>) -> Option<
    Seq<char>,
> {
    first_of(b.api_key, env_key)
}

/// A build with `b` and `env` has a usable API key.
pub open spec fn has_api_key(b: ClientBuilderView, env_key: Option<Seq<char>>) -> bool {
    match resolved_api_key(b, env_key) {
        Some(k) => k.len() > 0,
        None => false,
    }
}

/// The client configuration that a successful build with `b` and `env` gives.
pub open spec fn built_config(
    c: ClientView,
    b: ClientBuilderView,
    env_key: Option<Seq<char>>,
    env_url: Option<Seq<char>>,
) -> bool {
    &&& Some(c.api_key) == resolved_api_key(b, env_key)
    &&& c.base_url == match first_of(b.base_url, env_url) {
        Some(u) => u,
        None => DEFAULT_BASE_URL@,
    }
    &&& c.timeout_ms == match b.timeout_ms {
        Some(t) => t,
        None => DEFAULT_TIMEOUT_MS,
    }
    &&& c.max_retries == match b.max_retries {
        Some(n) => n,
        None => DEFAULT_MAX_RETRIES,
    }
}

impl Client {
    /// Every client holds a non-empty API key.
    pub open spec fn wf(&self) -> bool {
        self@.api_key.len() > 0
    }

    /// Creates a client with this API key and default options.
    pub fn new(api_key: String) -> (r: Result<Client, ClientError>)
        ensures
            api_key@.len() > 0 <==> r is Ok,
            api_key@.len() == 0 ==> r matches Err(ClientError::InvalidApiKey),
            r matches Ok(c) ==> c.wf() && c@.api_key == api_key@ && c@.base_url
                == DEFAULT_BASE_URL@ && c@.timeout_ms == DEFAULT_TIMEOUT_MS && c@.max_retries
                == DEFAULT_MAX_RETRIES,
    {
        Self::builder().api_key(api_key).build()
    }

    /// Creates a client from the environment's API key and base URL.
    pub fn from_env(env: EnvDefaults) -> (r: Result<Client, ClientError>)
        ensures
            has_api_key(ClientBuilder::empty_view(), opt_text(env.api_key)) <==> r is Ok,
            !has_api_key(ClientBuilder::empty_view(), opt_text(env.api_key)) ==> r matches Err(
                ClientError::InvalidApiKey,
            ),
            r matches Ok(c) ==> c.wf() && built_config(
                c@,
                ClientBuilder::empty_view(),
                opt_text(env.api_key),
                opt_text(env.base_url),
            ),
    {
        Self::builder().build_with_env(env)
    }

    /// Creates a builder with nothing set.
    pub fn builder() -> (r: ClientBuilder)
        ensures
            r@ == ClientBuilder::empty_view(),
    {
        ClientBuilder { api_key: None, base_url: None, timeout_ms: None, max_retries: None }
    }

    /// The API key.
    pub fn api_key(&self) -> (r: &String)
        ensures
            r@ == self@.api_key,
    {
        &self.api_key
    }

    /// The base URL that endpoint paths are appended to.
    pub fn base_url(&self) -> (r: &String)
        ensures
            r@ == self@.base_url,
    {
        &self.base_url
    }

    /// The request timeout, in milliseconds.
    pub fn timeout_ms(&self) -> (r: u64)
        ensures
            r == self@.timeout_ms,
    {
        self.timeout_ms
    }

    /// The number of retries a logical call may make.
    pub fn max_retries(&self) -> (r: u32)
        ensures
            r == self@.max_retries,
    {
        self.max_retries
    }

    /// The full URL of an endpoint: the base URL followed by the path.
    pub fn endpoint_url(&self, endpoint: &str) -> (r: String)
        ensures
            r@ == self@.base_url + endpoint@,
    {
        self.base_url.clone().concat(endpoint)
    }

    /// The value of the `Authorization` header: the API key as a bearer token.
    pub fn authorization(&self) -> (r: String)
        ensures
            r@ == "Bearer "@ + self@.api_key,
    {
        String::from_str("Bearer ").concat(self.api_key.as_str())
    }

    /// The next step of a logical call after `retries_done` retries and a response
    /// with `status`, within this client's retry budget.
    pub fn next_action(&self, retries_done: u32, status: u16) -> (r: RetryAction)
        ensures
            r == next_action_spec(retries_done, self@.max_retries, status),
    {
        next_action(retries_done, self.max_retries, status)
    }
}

impl ClientBuilder {
    /// The view of a builder with nothing set.
    pub open spec fn empty_view() -> ClientBuilderView {
        ClientBuilderView { api_key: None, base_url: None, timeout_ms: None, max_retries: None }
    }

    /// Sets the API key.
    pub fn api_key(self, api_key: String) -> (r: ClientBuilder)
        ensures
            r@ == (ClientBuilderView { api_key: Some(api_key@), ..self@ }),
    {
        ClientBuilder { api_key: Some(api_key), ..self }
    }

    /// Sets the base URL (useful for testing).
    pub fn base_url(self, base_url: String) -> (r: ClientBuilder)
        ensures
            r@ == (ClientBuilderView { base_url: Some(base_url@), ..self@ }),
    {
        ClientBuilder { base_url: Some(base_url), ..self }
    }

    /// Sets the request timeout, in milliseconds.
    pub fn timeout(self, timeout_ms: u64) -> (r: ClientBuilder)
        ensures
            r@ == (ClientBuilderView { timeout_ms: Some(timeout_ms), ..self@ }),
    {
        ClientBuilder { timeout_ms: Some(timeout_ms), ..self }
    }

    /// Sets the number of retries.
    pub fn max_retries(self, max_retries: u32) -> (r: ClientBuilder)
        ensures
            r@ == (ClientBuilderView { max_retries: Some(max_retries), ..self@ }),
    {
        ClientBuilder { max_retries: Some(max_retries), ..self }
    }

    /// Builds the client from what was set, with defaults for the rest and no
    /// fallback to the environment.
    pub fn build(self) -> (r: Result<Client, ClientError>)
        ensures
            has_api_key(self@, None) <==> r is Ok,
            !has_api_key(self@, None) ==> r matches Err(ClientError::InvalidApiKey),
            r matches Ok(c) ==> c.wf() && built_config(c@, self@, None, None),
    {
        self.build_with_env(EnvDefaults::none())
    }

    /// Builds the client from what was set, falling back on the environment's
    /// values and then on the defaults. Fails with `InvalidApiKey` when neither
    /// gives a non-empty API key.
    pub fn build_with_env(self, env: EnvDefaults) -> (r: Result<Client, ClientError>)
        ensures
            has_api_key(self@, opt_text(env.api_key)) <==> r is Ok,
            !has_api_key(self@, opt_text(env.api_key)) ==> r matches Err(
                ClientError::InvalidApiKey,
            ),
            r matches Ok(c) ==> c.wf() && built_config(
                c@,
                self@,
                opt_text(env.api_key),
                opt_text(env.base_url),
            ),
    {
        let api_key = match self.api_key {
            Some(k) => k,
            None => match env.api_key {
                Some(k) => k,
                None => {
                    return Err(ClientError::InvalidApiKey);
                },
            },
        };
        if api_key.as_str().is_empty() {
            return Err(ClientError::InvalidApiKey);
        }
        let base_url = match self.base_url {
            Some(u) => u,
            None => match env.base_url {
                Some(u) => u,
                None => String::from_str(DEFAULT_BASE_URL),
            },
        };
        let timeout_ms = match self.timeout_ms {
            Some(t) => t,
            None => DEFAULT_TIMEOUT_MS,
        };
        let max_retries = match self.max_retries {
            Some(n) => n,
            None => DEFAULT_MAX_RETRIES,
        };
        Ok(Client { api_key, base_url, timeout_ms, max_retries })
    }
}

} // verus!
