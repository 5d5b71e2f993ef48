//! Client configuration for the image-generation endpoint. The HTTP exchange
//! itself lives with the caller; this is the validated configuration it needs.

use vstd::prelude::*;

verus! {

/// The endpoint address.
#[derive(Debug, Clone)]
pub struct URL(pub String);

impl URL {
    /// Creates an image given a prompt.
    pub fn openai_v1_images_generations() -> (r: URL)
        ensures
            r.0@ == "https://api.openai.com/v1/images/generations"@,
    {
        URL("https://api.openai.com/v1/images/generations".to_owned())
    }
}

/// The bearer credential.
#[derive(Debug, Clone)]
pub struct ApiKey(pub String);

/// An overall duration bound, in milliseconds.
#[derive(Debug, Clone, Copy, PartialEq, Eq, Structural)]
pub struct Timeout(pub u64);

/// Accumulates a client configuration; `build` validates it.
pub struct ClientConfigurationBuilder {
    pub api_url: Option<URL>,
    pub api_key: Option<ApiKey>,
    pub timeout: Option<Timeout>,
}

impl Default for ClientConfigurationBuilder {
    fn default() -> (r: ClientConfigurationBuilder)
        ensures
            r.api_url is None,
            r.api_key is None,
            r.timeout is None,
    {
        ClientConfigurationBuilder { api_url: None, api_key: None, timeout: None }
    }
}

impl ClientConfigurationBuilder {
    pub fn with_api_url(self, api_url: URL) -> (r: ClientConfigurationBuilder)
        ensures
            r.api_url matches Some(u) && u.0@ == api_url.0@,
            r.api_key == self.api_key,
            r.timeout == self.timeout,
    {
        ClientConfigurationBuilder { api_url: Some(api_url), ..self }
    }

    pub fn with_api_key(self, api_key: ApiKey) -> (r: ClientConfigurationBuilder)
        ensures
            r.api_key matches Some(k) && k.0@ == api_key.0@,
            r.api_url == self.api_url,
            r.timeout == self.timeout,
    {
        ClientConfigurationBuilder { api_key: Some(api_key), ..self }
    }

    pub fn with_timeout(self, timeout: Timeout) -> (r: ClientConfigurationBuilder)
        ensures
            r.timeout == Some(timeout),
            r.api_url == self.api_url,
            r.api_key == self.api_key,
    {
        ClientConfigurationBuilder { timeout: Some(timeout), ..self }
    }

    /// Validates the configuration: address and credential are required, the
    /// timeout stays optional.
    pub fn build(self) -> (r: Option<ClientConfiguration>)
        ensures
            self.api_url is Some && self.api_key is Some ==> (r matches Some(c) && c.api_url.0@
                == (self.api_url->0).0@ && c.api_key.0@ == (self.api_key->0).0@ && c.timeout
                == self.timeout),
            self.api_url is None || self.api_key is None ==> r is None,
    {
        let api_url = match self.api_url {
            Some(u) => u,
            None => {
                return None;
            },
        };
        let api_key = match self.api_key {
            Some(k) => k,
            None => {
                return None;
            },
        };
        Some(ClientConfiguration { api_url, api_key, timeout: self.timeout })
    }
}

/// A validated client configuration.
pub struct ClientConfiguration {
    pub api_url: URL,
    pub api_key: ApiKey,
    pub timeout: Option<Timeout>,
}

} // verus!
