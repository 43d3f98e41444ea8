//! Verified core of a client for the Keygen licensing service.

pub mod api_version;
pub mod arch;
pub mod artifact;
pub mod attributes;
pub mod certificate;
pub mod channel;
pub mod client;
pub mod component;
pub mod config;
pub mod crypto;
pub mod decryptor;
pub mod entitlement;
pub mod environment;
pub mod errors;
pub mod group;
pub mod headers;
pub mod included;
pub mod keygen_client;
pub mod license;
pub mod license_file;
pub mod license_request;
pub mod machine;
pub mod machine_file;
pub mod package;
pub mod platform;
pub mod policy;
pub mod process;
pub mod product;
pub mod release;
pub mod profile;
pub mod service;
pub mod signing;
pub mod text;
pub mod token;
pub mod user;
pub mod validate;
pub mod webhook;

use vstd::prelude::*;

use crate::config::KeygenConfig;
use crate::errors::Error;
use crate::license::{License, SchemeCode};
use crate::signing::license_outcome;

verus! {

/// Verifies a signed license key offline, under the scheme it was signed
/// with and the public key of `config`, and returns the key's dataset.
/// Only Ed25519 signed keys are supported.
pub fn verify(scheme: SchemeCode, signed_key: &str, config: &KeygenConfig) -> (r: Result<
    Vec<u8>,
    Error,
>)
    ensures
        match config.public_key {
            None => r matches Err(Error::PublicKeyMissing),
            Some(pk) => license_outcome(pk@, Some(scheme), signed_key@, r),
        },
{
    let license = License::from_signed_key(scheme, signed_key);
    license.verify(config)
}

} // verus!
