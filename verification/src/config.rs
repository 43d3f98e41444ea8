//! Client configuration.

use vstd::prelude::*;

use crate::api_version::ApiContractVersion;
use crate::text::to_string;

verus! {

/// Everything a client needs to reach and authenticate to the Keygen API.
#[derive(Clone, Debug)]
pub struct KeygenConfig {
    pub api_url: String,
    pub api_version: ApiContractVersion,
    pub api_prefix: String,
    pub account: String,
    pub environment: Option<String>,
    pub user_agent: Option<String>,
    pub product: String,
    pub package: String,
    pub license_key: Option<String>,
    pub public_key: Option<String>,
    pub platform: Option<String>,
    pub max_clock_drift: Option<i64>,
    pub verify_keygen_signature: Option<bool>,
    pub token: Option<String>,
}

impl KeygenConfig {
    /// The defaults, except for the fields given.
    pub open spec fn is_default_except(self, account: bool, product: bool, license_key: bool, public_key: bool, token: bool) -> bool {
        &&& self.api_url@ == "https://api.keygen.sh"@
        &&& self.api_version == ApiContractVersion::CURRENT
        &&& self.api_prefix@ == "v1"@
        &&& (!account ==> self.account@ == Seq::<char>::empty())
        &&& self.environment is None
        &&& self.user_agent is None
        &&& (!product ==> self.product@ == Seq::<char>::empty())
        &&& self.package@ == Seq::<char>::empty()
        &&& (!license_key ==> self.license_key is None)
        &&& (!public_key ==> self.public_key is None)
        &&& self.platform is None
        &&& self.max_clock_drift == Some(5i64)
        &&& self.verify_keygen_signature == Some(true)
        &&& (!token ==> self.token is None)
    }

    /// A license-key configuration: the given account, product, license key
    /// and public key, everything else at its default.
    pub fn license_key(account: String, product: String, license_key: String, public_key: String) -> (r: Self)
        ensures
            r.is_default_except(true, true, true, true, false),
            r.account == account,
            r.product == product,
            r.license_key == Some(license_key),
            r.public_key == Some(public_key),
    {
        let mut c = Self::default();
        c.account = account;
        c.product = product;
        c.license_key = Some(license_key);
        c.public_key = Some(public_key);
        c
    }

    /// A token configuration: the given account and token, everything else
    /// at its default.
    pub fn token(account: String, token: String) -> (r: Self)
        ensures
            r.is_default_except(true, false, false, false, true),
            r.account == account,
            r.token == Some(token),
    {
        let mut c = Self::default();
        c.account = account;
        c.token = Some(token);
        c
    }
}

impl Default for KeygenConfig {
    fn default() -> (r: Self)
        ensures
            r.is_default_except(false, false, false, false, false),
    {
        KeygenConfig {
            api_url: to_string("https://api.keygen.sh"),
            api_version: ApiContractVersion::CURRENT,
            api_prefix: to_string("v1"),
            account: String::new(),
            environment: None,
            user_agent: None,
            product: String::new(),
            package: String::new(),
            license_key: None,
            public_key: None,
            platform: None,
            max_clock_drift: Some(5),
            verify_keygen_signature: Some(true),
            token: None,
        }
    }
}

} // verus!
