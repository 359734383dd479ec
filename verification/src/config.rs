//! Configuration of a mock server: an optional base URL and the settings of
//! the server adapter that runs it.

use vstd::prelude::*;

verus! {

/// A server that can run mocks, with its own kind of settings.
pub trait ServerAdapter {
    /// The settings of the server.
    type Config;
}

/// A builder for the configuration of a mock server.
pub struct EasyHttpMockConfigBuilder<S: ServerAdapter> {
    /// The base URL for the mock server.
    base_url: Option<String>,
    /// The settings of the server.
    server_config: S::Config,
}

/// The configuration of a mock server.
pub struct EasyHttpMockConfig<S: ServerAdapter> {
    /// The base URL for the mock server.
    base_url: Option<String>,
    /// The settings of the server.
    server_config: S::Config,
}

/// An optional text as an optional character sequence.
pub open spec fn text_view(t: Option<String>) -> Option<Seq<char>> {
    match t {
        Some(s) => Some(s@),
        None => None,
    }
}

impl<S: ServerAdapter> EasyHttpMockConfigBuilder<S> {
    /// The base URL that the builder holds.
    pub closed spec fn spec_base_url(&self) -> Option<Seq<char>> {
        text_view(self.base_url)
    }

    /// The server settings that the builder holds.
    pub closed spec fn spec_server_config(&self) -> S::Config {
        self.server_config
    }

    /// Sets the base URL.
    pub fn base_url(self, base_url: String) -> (r: Self)
        ensures
            r.spec_base_url() == Some(base_url@),
            r.spec_server_config() == self.spec_server_config(),
    {
        EasyHttpMockConfigBuilder { base_url: Some(base_url), server_config: self.server_config }
    }

    /// Sets the server settings.
    pub fn server_config(self, server_config: S::Config) -> (r: Self)
        ensures
            r.spec_base_url() == self.spec_base_url(),
            r.spec_server_config() == server_config,
    {
        EasyHttpMockConfigBuilder { base_url: self.base_url, server_config }
    }

    /// The configuration with the base URL and server settings set so far.
    pub fn build(self) -> (r: EasyHttpMockConfig<S>)
        ensures
            r.spec_base_url() == self.spec_base_url(),
            r.spec_server_config() == self.spec_server_config(),
    {
        EasyHttpMockConfig { base_url: self.base_url, server_config: self.server_config }
    }
}

impl<S: ServerAdapter> EasyHttpMockConfig<S> {
    /// The base URL of the configuration.
    pub closed spec fn spec_base_url(&self) -> Option<Seq<char>> {
        text_view(self.base_url)
    }

    /// The server settings of the configuration.
    pub closed spec fn spec_server_config(&self) -> S::Config {
        self.server_config
    }

    /// The base URL.
    pub fn base_url(&self) -> (r: &Option<String>)
        ensures
            text_view(*r) == self.spec_base_url(),
    {
        &self.base_url
    }

    /// The server settings.
    pub fn server_config(&self) -> (r: &S::Config)
        ensures
            *r == self.spec_server_config(),
    {
        &self.server_config
    }
}

impl<S: ServerAdapter> EasyHttpMockConfig<S> where S::Config: Default {
    /// A builder without a base URL and with the default server settings
    /// (what `S::Config::default()` gives).
    pub fn builder() -> (r: EasyHttpMockConfigBuilder<S>)
        ensures
            r.spec_base_url() is None,
            call_ensures(<S::Config as Default>::default, (), r.spec_server_config()),
    {
        EasyHttpMockConfigBuilder { base_url: None, server_config: S::Config::default() }
    }
}

impl<S: ServerAdapter> Default for EasyHttpMockConfig<S> where S::Config: Default {
    /// A configuration without a base URL and with the default server
    /// settings (what `S::Config::default()` gives).
    fn default() -> (r: Self)
        ensures
            r.spec_base_url() is None,
            call_ensures(<S::Config as Default>::default, (), r.spec_server_config()),
    {
        EasyHttpMockConfig { base_url: None, server_config: S::Config::default() }
    }
}

} // verus!
