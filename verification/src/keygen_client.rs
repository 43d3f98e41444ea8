//! Building the configuration of a client step by step.

use vstd::prelude::*;

use crate::api_version::ApiContractVersion;
use crate::config::KeygenConfig;

verus! {

/// Builds the configuration of a client, starting from the defaults.
#[derive(Clone, Debug, Default)]
pub struct KeygenClientBuilder {
    config: KeygenConfig,
}

impl View for KeygenClientBuilder {
    type V = KeygenConfig;

    /// The configuration built so far.
    closed spec fn view(&self) -> KeygenConfig {
        self.config
    }
}

impl KeygenClientBuilder {
    /// A builder starting from the default configuration.
    pub fn new() -> (r: Self)
        ensures
            r@.is_default_except(false, false, false, false, false),
    {
        KeygenClientBuilder { config: KeygenConfig::default() }
    }

    /// The configuration built.
    pub fn into_config(self) -> (r: KeygenConfig)
        ensures
            r == self@,
    {
        self.config
    }

    pub fn account(self, account: String) -> (r: Self)
        ensures
            r@ == (KeygenConfig { account, ..self@ }),
    {
        let mut c = self.config;
        c.account = account;
        KeygenClientBuilder { config: c }
    }

    pub fn api_url(self, api_url: String) -> (r: Self)
        ensures
            r@ == (KeygenConfig { api_url, ..self@ }),
    {
        let mut c = self.config;
        c.api_url = api_url;
        KeygenClientBuilder { config: c }
    }

    pub fn api_contract_version(self, api_version: ApiContractVersion) -> (r: Self)
        ensures
            r@ == (KeygenConfig { api_version, ..self@ }),
    {
        let mut c = self.config;
        c.api_version = api_version;
        KeygenClientBuilder { config: c }
    }

    pub fn api_prefix(self, api_prefix: String) -> (r: Self)
        ensures
            r@ == (KeygenConfig { api_prefix, ..self@ }),
    {
        let mut c = self.config;
        c.api_prefix = api_prefix;
        KeygenClientBuilder { config: c }
    }

    pub fn environment(self, environment: String) -> (r: Self)
        ensures
            r@ == (KeygenConfig { environment: Some(environment), ..self@ }),
    {
        let mut c = self.config;
        c.environment = Some(environment);
        KeygenClientBuilder { config: c }
    }

    pub fn user_agent(self, user_agent: String) -> (r: Self)
        ensures
            r@ == (KeygenConfig { user_agent: Some(user_agent), ..self@ }),
    {
        let mut c = self.config;
        c.user_agent = Some(user_agent);
        KeygenClientBuilder { config: c }
    }

    pub fn product(self, product: String) -> (r: Self)
        ensures
            r@ == (KeygenConfig { product, ..self@ }),
    {
        let mut c = self.config;
        c.product = product;
        KeygenClientBuilder { config: c }
    }

    pub fn package(self, package: String) -> (r: Self)
        ensures
            r@ == (KeygenConfig { package, ..self@ }),
    {
        let mut c = self.config;
        c.package = package;
        KeygenClientBuilder { config: c }
    }

    pub fn license_key(self, license_key: String) -> (r: Self)
        ensures
            r@ == (KeygenConfig { license_key: Some(license_key), ..self@ }),
    {
        let mut c = self.config;
        c.license_key = Some(license_key);
        KeygenClientBuilder { config: c }
    }

    pub fn public_key(self, public_key: String) -> (r: Self)
        ensures
            r@ == (KeygenConfig { public_key: Some(public_key), ..self@ }),
    {
        let mut c = self.config;
        c.public_key = Some(public_key);
        KeygenClientBuilder { config: c }
    }

    pub fn platform(self, platform: String) -> (r: Self)
        ensures
            r@ == (KeygenConfig { platform: Some(platform), ..self@ }),
    {
        let mut c = self.config;
        c.platform = Some(platform);
        KeygenClientBuilder { config: c }
    }

    pub fn max_clock_drift(self, max_clock_drift: i64) -> (r: Self)
        ensures
            r@ == (KeygenConfig { max_clock_drift: Some(max_clock_drift), ..self@ }),
    {
        let mut c = self.config;
        c.max_clock_drift = Some(max_clock_drift);
        KeygenClientBuilder { config: c }
    }

    pub fn verify_keygen_signature(self, verify: bool) -> (r: Self)
        ensures
            r@ == (KeygenConfig { verify_keygen_signature: Some(verify), ..self@ }),
    {
        let mut c = self.config;
        c.verify_keygen_signature = Some(verify);
        KeygenClientBuilder { config: c }
    }

    pub fn token(self, token: String) -> (r: Self)
        ensures
            r@ == (KeygenConfig { token: Some(token), ..self@ }),
    {
        let mut c = self.config;
        c.token = Some(token);
        KeygenClientBuilder { config: c }
    }
}

} // verus!
