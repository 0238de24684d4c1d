//! What can go wrong: at startup, and in answering a request.

use vstd::prelude::*;

verus! {

/// Why the sidecar cannot start with the configuration that it was given. Where
/// something else failed first, its own account of that is the cause.
#[derive(Debug, PartialEq, Eq)]
pub enum ConfigError {
    /// `LIGHTWALLETD_ENDPOINT` is not set, or not to text.
    MissingEndpoint { cause: String },
    /// `ZCASH_NETWORK` names no known network.
    InvalidNetwork,
    /// The mnemonic phrase is not a valid one.
    InvalidMnemonic { cause: String },
    /// `ZCASH_USK` is neither hexadecimal nor base64.
    InvalidSpendingKey,
    /// No credential is set.
    MissingCredential,
    /// `LIGHTWALLETD_ENDPOINT` is not a URI.
    InvalidEndpoint { cause: String },
    /// `BIND_ADDR` and `PORT` make no socket address.
    InvalidBindAddress,
}

/// What `ConfigError` holds.
pub enum ErrorModel {
    MissingEndpoint { cause: Seq<char> },
    InvalidNetwork,
    InvalidMnemonic { cause: Seq<char> },
    InvalidSpendingKey,
    MissingCredential,
    InvalidEndpoint { cause: Seq<char> },
    InvalidBindAddress,
}

impl View for ConfigError {
    type V = ErrorModel;

    open spec fn view(&self) -> ErrorModel {
        match self {
            ConfigError::MissingEndpoint { cause } => ErrorModel::MissingEndpoint {
                cause: cause@,
            },
            ConfigError::InvalidNetwork => ErrorModel::InvalidNetwork,
            ConfigError::InvalidMnemonic { cause } => ErrorModel::InvalidMnemonic {
                cause: cause@,
            },
            ConfigError::InvalidSpendingKey => ErrorModel::InvalidSpendingKey,
            ConfigError::MissingCredential => ErrorModel::MissingCredential,
            ConfigError::InvalidEndpoint { cause } => ErrorModel::InvalidEndpoint {
                cause: cause@,
            },
            ConfigError::InvalidBindAddress => ErrorModel::InvalidBindAddress,
        }
    }
}

impl ErrorModel {
    /// The text that reports the error.
    pub open spec fn text(self) -> Seq<char> {
        match self {
            ErrorModel::MissingEndpoint { .. } =>
                "LIGHTWALLETD_ENDPOINT environment variable must be set"@,
            ErrorModel::InvalidNetwork =>
                "Invalid ZCASH_NETWORK specified. Use 'mainnet' or 'testnet'."@,
            ErrorModel::InvalidMnemonic { .. } => "failed to parse mnemonic from env"@,
            ErrorModel::InvalidSpendingKey => "failed to parse ZCASH_USK as hex or base64"@,
            ErrorModel::MissingCredential =>
                "Set ZCASH_MNEMONIC, ZCASH_SPENDING_KEY, ZCASH_USK, or ZCASH_UFVK"@,
            ErrorModel::InvalidEndpoint { .. } => "invalid LIGHTWALLETD_ENDPOINT"@,
            ErrorModel::InvalidBindAddress => "invalid bind addr/port"@,
        }
    }

    /// What failed beneath the error, in its own words.
    pub open spec fn cause(self) -> Option<Seq<char>> {
        match self {
            ErrorModel::MissingEndpoint { cause } => Some(cause),
            ErrorModel::InvalidMnemonic { cause } => Some(cause),
            ErrorModel::InvalidEndpoint { cause } => Some(cause),
            _ => None,
        }
    }
}

impl ConfigError {
    /// Reports the error.
    pub fn message(&self) -> (message: &'static str)
        ensures
            message@ == self@.text(),
            self is MissingEndpoint ==> message@
                == "LIGHTWALLETD_ENDPOINT environment variable must be set"@,
            self is InvalidNetwork ==> message@
                == "Invalid ZCASH_NETWORK specified. Use 'mainnet' or 'testnet'."@,
            self is InvalidMnemonic ==> message@
                == "failed to parse mnemonic from env"@,
            self is InvalidSpendingKey ==> message@
                == "failed to parse ZCASH_USK as hex or base64"@,
            self is MissingCredential ==> message@
                == "Set ZCASH_MNEMONIC, ZCASH_SPENDING_KEY, ZCASH_USK, or ZCASH_UFVK"@,
            self is InvalidEndpoint ==> message@
                == "invalid LIGHTWALLETD_ENDPOINT"@,
            self is InvalidBindAddress ==> message@
                == "invalid bind addr/port"@,
    {
        match self {
            ConfigError::MissingEndpoint { .. } =>
                "LIGHTWALLETD_ENDPOINT environment variable must be set",
            ConfigError::InvalidNetwork =>
                "Invalid ZCASH_NETWORK specified. Use 'mainnet' or 'testnet'.",
            ConfigError::InvalidMnemonic { .. } => "failed to parse mnemonic from env",
            ConfigError::InvalidSpendingKey => "failed to parse ZCASH_USK as hex or base64",
            ConfigError::MissingCredential =>
                "Set ZCASH_MNEMONIC, ZCASH_SPENDING_KEY, ZCASH_USK, or ZCASH_UFVK",
            ConfigError::InvalidEndpoint { .. } => "invalid LIGHTWALLETD_ENDPOINT",
            ConfigError::InvalidBindAddress => "invalid bind addr/port",
        }
    }

    /// Reports what failed beneath the error.
    pub fn cause(&self) -> (cause: Option<String>)
        ensures
            cause.deep_view() == self@.cause(),
            match self {
                ConfigError::MissingEndpoint { cause: c } => cause is Some && cause->0@ == c@,
                ConfigError::InvalidMnemonic { cause: c } => cause is Some && cause->0@ == c@,
                ConfigError::InvalidEndpoint { cause: c } => cause is Some && cause->0@ == c@,
                _ => cause is None,
            },
    {
        match self {
            ConfigError::MissingEndpoint { cause } => Some(cause.clone()),
            ConfigError::InvalidMnemonic { cause } => Some(cause.clone()),
            ConfigError::InvalidEndpoint { cause } => Some(cause.clone()),
            _ => None,
        }
    }
}

/// The HTTP statuses with which a request is refused.
#[derive(Clone, Copy, Debug, PartialEq, Eq, Structural)]
pub enum StatusCode {
    BadRequest,
    Unauthorized,
    Forbidden,
    InternalServerError,
}

impl StatusCode {
    /// The status as HTTP numbers it.
    pub open spec fn number(self) -> u16 {
        match self {
            StatusCode::BadRequest => 400,
            StatusCode::Unauthorized => 401,
            StatusCode::Forbidden => 403,
            StatusCode::InternalServerError => 500,
        }
    }

    /// The status as HTTP numbers it.
    pub fn as_u16(&self) -> (number: u16)
        ensures
            number == self.number(),
            *self == StatusCode::BadRequest <==> number == 400,
            *self == StatusCode::Unauthorized <==> number == 401,
            *self == StatusCode::Forbidden <==> number == 403,
            *self == StatusCode::InternalServerError <==> number == 500,
    {
        match self {
            StatusCode::BadRequest => 400,
            StatusCode::Unauthorized => 401,
            StatusCode::Forbidden => 403,
            StatusCode::InternalServerError => 500,
        }
    }
}

/// Each error is reported in its own words.
pub proof fn errors_have_their_texts(error: ErrorModel)
    ensures
        error is MissingEndpoint ==> error.text()
            == "LIGHTWALLETD_ENDPOINT environment variable must be set"@,
        error is InvalidNetwork ==> error.text()
            == "Invalid ZCASH_NETWORK specified. Use 'mainnet' or 'testnet'."@,
        error is InvalidMnemonic ==> error.text()
            == "failed to parse mnemonic from env"@,
        error is InvalidSpendingKey ==> error.text()
            == "failed to parse ZCASH_USK as hex or base64"@,
        error is MissingCredential ==> error.text()
            == "Set ZCASH_MNEMONIC, ZCASH_SPENDING_KEY, ZCASH_USK, or ZCASH_UFVK"@,
        error is InvalidEndpoint ==> error.text()
            == "invalid LIGHTWALLETD_ENDPOINT"@,
        error is InvalidBindAddress ==> error.text()
            == "invalid bind addr/port"@,
{
}

/// What failed beneath an error is reported as it told of itself. The errors that the
/// sidecar finds by itself have nothing beneath them.
pub proof fn causes_are_kept(cause: Seq<char>, error: ErrorModel)
    ensures
        (ErrorModel::MissingEndpoint { cause }).cause() == Some(cause),
        (ErrorModel::InvalidMnemonic { cause }).cause() == Some(cause),
        (ErrorModel::InvalidEndpoint { cause }).cause() == Some(cause),
        error is InvalidNetwork || error is InvalidSpendingKey || error is MissingCredential
            || error is InvalidBindAddress ==> error.cause() is None,
{
}

/// Each refusal has the number that HTTP gives it.
pub proof fn refusals_have_their_numbers(status: StatusCode)
    ensures
        status == StatusCode::BadRequest <==> status.number() == 400,
        status == StatusCode::Unauthorized <==> status.number() == 401,
        status == StatusCode::Forbidden <==> status.number() == 403,
        status == StatusCode::InternalServerError <==> status.number() == 500,
{
}

} // verus!
