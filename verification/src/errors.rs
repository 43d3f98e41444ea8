//! Errors produced by the verified parts of the client.

use vstd::prelude::*;

use crate::text::{chars_eq_str, chars_of, to_string};

verus! {

/// The kind of a JSON:API error, classified by its `code`.
#[derive(Debug, Clone, Copy, PartialEq, Eq, Structural)]
#[non_exhaustive]
pub enum ApiErrorKind {
    InvalidCredentials,
    EmailRequired,
    EmailInvalid,
    PasswordRequired,
    PasswordInvalid,
    PasswordNotSupported,
    SsoRequired,
    OtpRequired,
    OtpInvalid,
    Unknown,
}

impl ApiErrorKind {
    /// The kind named by an error `code`; `Unknown` for any other code.
    pub open spec fn of_code(code: Option<Seq<char>>) -> Self {
        match code {
            Some(c) => if c == "CREDENTIALS_INVALID"@ {
                ApiErrorKind::InvalidCredentials
            } else if c == "EMAIL_REQUIRED"@ {
                ApiErrorKind::EmailRequired
            } else if c == "EMAIL_INVALID"@ {
                ApiErrorKind::EmailInvalid
            } else if c == "PASSWORD_REQUIRED"@ {
                ApiErrorKind::PasswordRequired
            } else if c == "PASSWORD_INVALID"@ {
                ApiErrorKind::PasswordInvalid
            } else if c == "PASSWORD_NOT_SUPPORTED"@ {
                ApiErrorKind::PasswordNotSupported
            } else if c == "SSO_REQUIRED"@ {
                ApiErrorKind::SsoRequired
            } else if c == "OTP_REQUIRED"@ {
                ApiErrorKind::OtpRequired
            } else if c == "OTP_INVALID"@ {
                ApiErrorKind::OtpInvalid
            } else {
                ApiErrorKind::Unknown
            },
            None => ApiErrorKind::Unknown,
        }
    }
}

/// Everything that can go wrong in the verified parts of the client.
///
/// Each variant carries plain values only.
#[derive(Debug)]
#[non_exhaustive]
pub enum Error {
    UnexpectedError(String),
    InvalidUrl,
    SystemClockUnsynced,
    DecryptionError(String),
    UnsupportedApiVersion(String),
    InvalidResponse(String),
    /// A JSON document did not have the expected shape; the reader's message.
    JsonError(String),
    RateLimitExceeded {
        window: String,
        count: u32,
        limit: u32,
        remaining: u32,
        reset: u64,
        retry_after: u64,
    },
    LicenseKeyMissing,
    LicenseSchemeMissing,
    LicenseSchemeNotSupported,
    LicenseNotSigned,
    LicenseKeyNotGenuine,
    PublicKeyMissing,
    PublicKeyInvalid,
    LicenseSchemeUnsupported,
    CertificateFileInvalid(String),
    CertificateFileNotGenuine(String),
    CertificateFileNotSupported(String),
    CertificateFileExpired,
    LicenseFileInvalid(String),
    LicenseFileNotGenuine(String),
    LicenseFileNotSupported(String),
    LicenseFileNotEncrypted,
    /// The license file's validity period has ended; whoever parsed the
    /// dataset attaches it.
    LicenseFileExpired,
    LicenseFileAlgorithmMismatch { expected: String, actual: String },
    MachineFileInvalid(String),
    MachineFileNotGenuine(String),
    MachineFileNotSupported(String),
    /// The machine file's validity period has ended; whoever parsed the
    /// dataset attaches it.
    MachineFileExpired,
    /// An API error carrying a code and detail; the raw body stays with
    /// the caller that read it.
    KeygenApiError { code: String, detail: String },
    TokenNotAllowed { code: String, detail: String },
    TokenFormatInvalid { code: String, detail: String },
    TokenInvalid { code: String, detail: String },
    TokenExpired { code: String, detail: String },
    LicenseSuspended { code: String, detail: String },
    LicenseExpired { code: String, detail: String },
    LicenseNotAllowed { code: String, detail: String },
    /// The license is not activated; the license itself stays with the
    /// caller that read it.
    LicenseNotActivated { code: String, detail: String },
    LicenseKeyInvalid { code: String, detail: String },
    LicenseTokenInvalid { code: String, detail: String },
    LicenseTooManyMachines { code: String, detail: String },
    LicenseTooManyCores { code: String, detail: String },
    LicenseTooManyProcesses { code: String, detail: String },
    MachineAlreadyActivated { code: String, detail: String },
    MachineLimitExceeded { code: String, detail: String },
    MachineNotFound,
    ProcessLimitExceeded { code: String, detail: String },
    ProcessNotFound,
    ComponentConflict { code: String, detail: String },
    ComponentAlreadyActivated { code: String, detail: String },
    ComponentNotActivated { code: String, detail: String },
    EnvironmentError { code: String, detail: String },
    HeartbeatDead { code: String, detail: String },
    HeartbeatPingFailed { code: String, detail: String },
    HeartbeatRequired { code: String, detail: String },
    ValidationFingerprintMissing { code: String, detail: String },
    ValidationComponentsMissing { code: String, detail: String },
    ValidationProductMissing { code: String, detail: String },
    NotFound { code: String, detail: String },
    KeygenSignatureInvalid { reason: String },
    KeygenSignatureMissing,
    MissingConfiguration,
}


/// The text an error displays.
pub open spec fn display_text(e: Error) -> Seq<char> {
    match e {
        Error::InvalidUrl => "Invalid URL"@,
        Error::SystemClockUnsynced => "System clock is out of sync"@,
        Error::LicenseKeyMissing => "License key is missing"@,
        Error::LicenseSchemeMissing => "License scheme is missing"@,
        Error::LicenseSchemeNotSupported => "License scheme is not supported"@,
        Error::LicenseNotSigned => "License is not signed"@,
        Error::LicenseKeyNotGenuine => "License key is not genuine"@,
        Error::PublicKeyMissing => "Public key is missing"@,
        Error::PublicKeyInvalid => "Public key is invalid"@,
        Error::LicenseSchemeUnsupported => "License scheme unsupported"@,
        Error::CertificateFileExpired => "Certificate file expired"@,
        Error::LicenseFileNotEncrypted => "License file not encrypted"@,
        Error::LicenseFileExpired => "License file expired"@,
        Error::MachineFileExpired => "License file expired"@,
        Error::MachineNotFound => "Machine no longer exists"@,
        Error::ProcessNotFound => "Process no longer exists"@,
        Error::KeygenSignatureMissing => "Keygen signature missing"@,
        Error::MissingConfiguration => "Configuration missing"@,
        Error::UnexpectedError(m) => "Unexpected error: "@ + m@,
        Error::DecryptionError(m) => "Decryption error: "@ + m@,
        Error::UnsupportedApiVersion(m) => "Unsupported Keygen API version: "@ + m@,
        Error::InvalidResponse(m) => "Invalid response: "@ + m@,
        Error::JsonError(m) => "JSON error: "@ + m@,
        Error::CertificateFileInvalid(m) => m@,
        Error::CertificateFileNotGenuine(m) => m@,
        Error::CertificateFileNotSupported(m) => m@,
        Error::LicenseFileInvalid(m) => "License file invalid: "@ + m@,
        Error::LicenseFileNotGenuine(m) => "License file not genuine: "@ + m@,
        Error::LicenseFileNotSupported(m) => "License file not supported: "@ + m@,
        Error::MachineFileInvalid(_) => "Machine file invalid"@,
        Error::MachineFileNotGenuine(_) => "Machine file not genuine"@,
        Error::MachineFileNotSupported(_) => "Machine file not supported"@,
        Error::RateLimitExceeded { .. } => "Rate limit exceeded"@,
        Error::LicenseFileAlgorithmMismatch { expected, actual } => "License file algorithm mismatch: expected "@ + expected@ + ", got "@ + actual@,
        Error::KeygenApiError { detail, .. } => "API error: "@ + detail@,
        Error::TokenNotAllowed { .. } => "Token not allowed"@,
        Error::TokenFormatInvalid { .. } => "Token format invalid"@,
        Error::TokenInvalid { .. } => "Token invalid"@,
        Error::TokenExpired { .. } => "Token expired"@,
        Error::LicenseSuspended { .. } => "License suspended"@,
        Error::LicenseExpired { .. } => "License expired"@,
        Error::LicenseNotAllowed { .. } => "License not allowed"@,
        Error::LicenseNotActivated { .. } => "License not activated"@,
        Error::LicenseKeyInvalid { .. } => "License key invalid"@,
        Error::LicenseTokenInvalid { .. } => "License token invalid"@,
        Error::LicenseTooManyMachines { .. } => "License has too many machines"@,
        Error::LicenseTooManyCores { .. } => "License has too many cores"@,
        Error::LicenseTooManyProcesses { .. } => "License has too many processes"@,
        Error::MachineAlreadyActivated { .. } => "Machine already activated"@,
        Error::MachineLimitExceeded { .. } => "Machine limit exceeded"@,
        Error::ProcessLimitExceeded { .. } => "Process limit exceeded"@,
        Error::ComponentConflict { .. } => "Component conflict"@,
        Error::ComponentAlreadyActivated { .. } => "Component already activated"@,
        Error::ComponentNotActivated { .. } => "Component is not activated"@,
        Error::EnvironmentError { .. } => "Environment error"@,
        Error::HeartbeatDead { .. } => "Heartbeat dead"@,
        Error::HeartbeatPingFailed { .. } => "Heartbeat ping failed"@,
        Error::HeartbeatRequired { .. } => "Heartbeat is required"@,
        Error::ValidationFingerprintMissing { .. } => "Validation fingerprint scope is missing"@,
        Error::ValidationComponentsMissing { .. } => "Validation components scope is missing"@,
        Error::ValidationProductMissing { .. } => "Validation product scope is missing"@,
        Error::NotFound { .. } => "Not found"@,
        Error::KeygenSignatureInvalid { reason } => "Keygen signature validation failed: "@ + reason@,
    }
}

/// The code of an error: the API's code for the errors that carry one,
/// `ERROR` for every other.
pub open spec fn error_code(e: Error) -> Seq<char> {
    match e {
        Error::KeygenApiError { code, .. } | Error::TokenNotAllowed { code, .. } | Error::TokenFormatInvalid { code, .. } | Error::TokenInvalid { code, .. } | Error::TokenExpired { code, .. } | Error::LicenseSuspended { code, .. } | Error::LicenseExpired { code, .. } | Error::LicenseNotAllowed { code, .. } | Error::LicenseNotActivated { code, .. } | Error::LicenseKeyInvalid { code, .. } | Error::LicenseTokenInvalid { code, .. } | Error::LicenseTooManyMachines { code, .. } | Error::LicenseTooManyCores { code, .. } | Error::LicenseTooManyProcesses { code, .. } | Error::MachineAlreadyActivated { code, .. } | Error::MachineLimitExceeded { code, .. } | Error::ProcessLimitExceeded { code, .. } | Error::ComponentConflict { code, .. } | Error::ComponentAlreadyActivated { code, .. } | Error::ComponentNotActivated { code, .. } | Error::EnvironmentError { code, .. } | Error::HeartbeatDead { code, .. } | Error::HeartbeatPingFailed { code, .. } | Error::HeartbeatRequired { code, .. } | Error::ValidationFingerprintMissing { code, .. } | Error::ValidationComponentsMissing { code, .. } | Error::ValidationProductMissing { code, .. } | Error::NotFound { code, .. } => code@,
        _ => "ERROR"@,
    }
}

/// The detail of an error: the API's detail for the errors that carry one,
/// the displayed text for every other.
pub open spec fn error_detail(e: Error) -> Seq<char> {
    match e {
        Error::KeygenApiError { detail, .. } | Error::TokenNotAllowed { detail, .. } | Error::TokenFormatInvalid { detail, .. } | Error::TokenInvalid { detail, .. } | Error::TokenExpired { detail, .. } | Error::LicenseSuspended { detail, .. } | Error::LicenseExpired { detail, .. } | Error::LicenseNotAllowed { detail, .. } | Error::LicenseNotActivated { detail, .. } | Error::LicenseKeyInvalid { detail, .. } | Error::LicenseTokenInvalid { detail, .. } | Error::LicenseTooManyMachines { detail, .. } | Error::LicenseTooManyCores { detail, .. } | Error::LicenseTooManyProcesses { detail, .. } | Error::MachineAlreadyActivated { detail, .. } | Error::MachineLimitExceeded { detail, .. } | Error::ProcessLimitExceeded { detail, .. } | Error::ComponentConflict { detail, .. } | Error::ComponentAlreadyActivated { detail, .. } | Error::ComponentNotActivated { detail, .. } | Error::EnvironmentError { detail, .. } | Error::HeartbeatDead { detail, .. } | Error::HeartbeatPingFailed { detail, .. } | Error::HeartbeatRequired { detail, .. } | Error::ValidationFingerprintMissing { detail, .. } | Error::ValidationComponentsMissing { detail, .. } | Error::ValidationProductMissing { detail, .. } | Error::NotFound { detail, .. } => detail@,
        _ => display_text(e),
    }
}

fn joined(prefix: &str, rest: &str) -> (r: String)
    ensures
        r@ == prefix@ + rest@,
{
    let mut t = to_string(prefix);
    t.append(rest);
    t
}

impl Error {
    /// The text the error displays.
    pub fn message(&self) -> (r: String)
        ensures
            r@ == display_text(*self),
    {
        match self {
            Error::InvalidUrl => to_string("Invalid URL"),
            Error::SystemClockUnsynced => to_string("System clock is out of sync"),
            Error::LicenseKeyMissing => to_string("License key is missing"),
            Error::LicenseSchemeMissing => to_string("License scheme is missing"),
            Error::LicenseSchemeNotSupported => to_string("License scheme is not supported"),
            Error::LicenseNotSigned => to_string("License is not signed"),
            Error::LicenseKeyNotGenuine => to_string("License key is not genuine"),
            Error::PublicKeyMissing => to_string("Public key is missing"),
            Error::PublicKeyInvalid => to_string("Public key is invalid"),
            Error::LicenseSchemeUnsupported => to_string("License scheme unsupported"),
            Error::CertificateFileExpired => to_string("Certificate file expired"),
            Error::LicenseFileNotEncrypted => to_string("License file not encrypted"),
            Error::LicenseFileExpired => to_string("License file expired"),
            Error::MachineFileExpired => to_string("License file expired"),
            Error::MachineNotFound => to_string("Machine no longer exists"),
            Error::ProcessNotFound => to_string("Process no longer exists"),
            Error::KeygenSignatureMissing => to_string("Keygen signature missing"),
            Error::MissingConfiguration => to_string("Configuration missing"),
            Error::UnexpectedError(m) => joined("Unexpected error: ", m.as_str()),
            Error::DecryptionError(m) => joined("Decryption error: ", m.as_str()),
            Error::UnsupportedApiVersion(m) => joined("Unsupported Keygen API version: ", m.as_str()),
            Error::InvalidResponse(m) => joined("Invalid response: ", m.as_str()),
            Error::JsonError(m) => joined("JSON error: ", m.as_str()),
            Error::CertificateFileInvalid(m) => m.clone(),
            Error::CertificateFileNotGenuine(m) => m.clone(),
            Error::CertificateFileNotSupported(m) => m.clone(),
            Error::LicenseFileInvalid(m) => joined("License file invalid: ", m.as_str()),
            Error::LicenseFileNotGenuine(m) => joined("License file not genuine: ", m.as_str()),
            Error::LicenseFileNotSupported(m) => joined("License file not supported: ", m.as_str()),
            Error::MachineFileInvalid(_) => to_string("Machine file invalid"),
            Error::MachineFileNotGenuine(_) => to_string("Machine file not genuine"),
            Error::MachineFileNotSupported(_) => to_string("Machine file not supported"),
            Error::RateLimitExceeded { .. } => to_string("Rate limit exceeded"),
            Error::LicenseFileAlgorithmMismatch { expected, actual } => {
                let mut t = joined("License file algorithm mismatch: expected ", expected.as_str());
                t.append(", got ");
                t.append(actual.as_str());
                t
            },
            Error::KeygenApiError { detail, .. } => joined("API error: ", detail.as_str()),
            Error::TokenNotAllowed { .. } => to_string("Token not allowed"),
            Error::TokenFormatInvalid { .. } => to_string("Token format invalid"),
            Error::TokenInvalid { .. } => to_string("Token invalid"),
            Error::TokenExpired { .. } => to_string("Token expired"),
            Error::LicenseSuspended { .. } => to_string("License suspended"),
            Error::LicenseExpired { .. } => to_string("License expired"),
            Error::LicenseNotAllowed { .. } => to_string("License not allowed"),
            Error::LicenseNotActivated { .. } => to_string("License not activated"),
            Error::LicenseKeyInvalid { .. } => to_string("License key invalid"),
            Error::LicenseTokenInvalid { .. } => to_string("License token invalid"),
            Error::LicenseTooManyMachines { .. } => to_string("License has too many machines"),
            Error::LicenseTooManyCores { .. } => to_string("License has too many cores"),
            Error::LicenseTooManyProcesses { .. } => to_string("License has too many processes"),
            Error::MachineAlreadyActivated { .. } => to_string("Machine already activated"),
            Error::MachineLimitExceeded { .. } => to_string("Machine limit exceeded"),
            Error::ProcessLimitExceeded { .. } => to_string("Process limit exceeded"),
            Error::ComponentConflict { .. } => to_string("Component conflict"),
            Error::ComponentAlreadyActivated { .. } => to_string("Component already activated"),
            Error::ComponentNotActivated { .. } => to_string("Component is not activated"),
            Error::EnvironmentError { .. } => to_string("Environment error"),
            Error::HeartbeatDead { .. } => to_string("Heartbeat dead"),
            Error::HeartbeatPingFailed { .. } => to_string("Heartbeat ping failed"),
            Error::HeartbeatRequired { .. } => to_string("Heartbeat is required"),
            Error::ValidationFingerprintMissing { .. } => to_string("Validation fingerprint scope is missing"),
            Error::ValidationComponentsMissing { .. } => to_string("Validation components scope is missing"),
            Error::ValidationProductMissing { .. } => to_string("Validation product scope is missing"),
            Error::NotFound { .. } => to_string("Not found"),
            Error::KeygenSignatureInvalid { reason } => joined("Keygen signature validation failed: ", reason.as_str()),
        }
    }
}

/// The code and detail of an error, as the API reports them.
pub trait ErrorMeta {
    fn code(&self) -> String;

    fn detail(&self) -> String;
}

impl ErrorMeta for Error {
    fn code(&self) -> (r: String)
        ensures
            r@ == error_code(*self),
    {
        match self {
            Error::KeygenApiError { code, .. } | Error::TokenNotAllowed { code, .. } | Error::TokenFormatInvalid { code, .. } | Error::TokenInvalid { code, .. } | Error::TokenExpired { code, .. } | Error::LicenseSuspended { code, .. } | Error::LicenseExpired { code, .. } | Error::LicenseNotAllowed { code, .. } | Error::LicenseNotActivated { code, .. } | Error::LicenseKeyInvalid { code, .. } | Error::LicenseTokenInvalid { code, .. } | Error::LicenseTooManyMachines { code, .. } | Error::LicenseTooManyCores { code, .. } | Error::LicenseTooManyProcesses { code, .. } | Error::MachineAlreadyActivated { code, .. } | Error::MachineLimitExceeded { code, .. } | Error::ProcessLimitExceeded { code, .. } | Error::ComponentConflict { code, .. } | Error::ComponentAlreadyActivated { code, .. } | Error::ComponentNotActivated { code, .. } | Error::EnvironmentError { code, .. } | Error::HeartbeatDead { code, .. } | Error::HeartbeatPingFailed { code, .. } | Error::HeartbeatRequired { code, .. } | Error::ValidationFingerprintMissing { code, .. } | Error::ValidationComponentsMissing { code, .. } | Error::ValidationProductMissing { code, .. } | Error::NotFound { code, .. } => code.clone(),
            _ => to_string("ERROR"),
        }
    }

    fn detail(&self) -> (r: String)
        ensures
            r@ == error_detail(*self),
    {
        match self {
            Error::KeygenApiError { detail, .. } | Error::TokenNotAllowed { detail, .. } | Error::TokenFormatInvalid { detail, .. } | Error::TokenInvalid { detail, .. } | Error::TokenExpired { detail, .. } | Error::LicenseSuspended { detail, .. } | Error::LicenseExpired { detail, .. } | Error::LicenseNotAllowed { detail, .. } | Error::LicenseNotActivated { detail, .. } | Error::LicenseKeyInvalid { detail, .. } | Error::LicenseTokenInvalid { detail, .. } | Error::LicenseTooManyMachines { detail, .. } | Error::LicenseTooManyCores { detail, .. } | Error::LicenseTooManyProcesses { detail, .. } | Error::MachineAlreadyActivated { detail, .. } | Error::MachineLimitExceeded { detail, .. } | Error::ProcessLimitExceeded { detail, .. } | Error::ComponentConflict { detail, .. } | Error::ComponentAlreadyActivated { detail, .. } | Error::ComponentNotActivated { detail, .. } | Error::EnvironmentError { detail, .. } | Error::HeartbeatDead { detail, .. } | Error::HeartbeatPingFailed { detail, .. } | Error::HeartbeatRequired { detail, .. } | Error::ValidationFingerprintMissing { detail, .. } | Error::ValidationComponentsMissing { detail, .. } | Error::ValidationProductMissing { detail, .. } | Error::NotFound { detail, .. } => detail.clone(),
            _ => self.message(),
        }
    }
}

impl ApiErrorKind {
    /// The kind of an API error with the given `code`.
    pub fn from_code(code: Option<&str>) -> (r: Self)
        ensures
            r == Self::of_code(
                match code {
                    Some(c) => Some(c@),
                    None => None,
                },
            ),
    {
        let c = match code {
            Some(c) => chars_of(c),
            None => return ApiErrorKind::Unknown,
        };
        let c = c.as_slice();
        if chars_eq_str(c, "CREDENTIALS_INVALID") {
            ApiErrorKind::InvalidCredentials
        } else if chars_eq_str(c, "EMAIL_REQUIRED") {
            ApiErrorKind::EmailRequired
        } else if chars_eq_str(c, "EMAIL_INVALID") {
            ApiErrorKind::EmailInvalid
        } else if chars_eq_str(c, "PASSWORD_REQUIRED") {
            ApiErrorKind::PasswordRequired
        } else if chars_eq_str(c, "PASSWORD_INVALID") {
            ApiErrorKind::PasswordInvalid
        } else if chars_eq_str(c, "PASSWORD_NOT_SUPPORTED") {
            ApiErrorKind::PasswordNotSupported
        } else if chars_eq_str(c, "SSO_REQUIRED") {
            ApiErrorKind::SsoRequired
        } else if chars_eq_str(c, "OTP_REQUIRED") {
            ApiErrorKind::OtpRequired
        } else if chars_eq_str(c, "OTP_INVALID") {
            ApiErrorKind::OtpInvalid
        } else {
            ApiErrorKind::Unknown
        }
    }
}

} // verus!
