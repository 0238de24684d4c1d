//! The credential that the wallet is opened with.

use vstd::prelude::*;

use crate::environment::{
    filled, first_env, first_filled, first_filled_is_first, Environment,
};
use crate::error::{ConfigError, ErrorModel};
use crate::outside::{
    base64_bytes, base64_decode, bytes_of, hex_bytes, hex_decode, mnemonic_phrase, parse_mnemonic,
};
use crate::text::text_outcome;

verus! {

/// How many accounts a wallet opened from a mnemonic has.
pub const NO_OF_ACCOUNTS: u32 = 1;

/// The credential that the environment names, as it is written there.
#[derive(Debug)]
pub enum Credential {
    /// A mnemonic phrase.
    Phrase(String),
    /// A unified spending key in hexadecimal or base64.
    SpendingKey(String),
    /// A unified full viewing key.
    ViewingKey(String),
}

/// What `Credential` holds.
pub enum CredentialModel {
    Phrase(Seq<char>),
    SpendingKey(Seq<char>),
    ViewingKey(Seq<char>),
}

impl View for Credential {
    type V = CredentialModel;

    open spec fn view(&self) -> CredentialModel {
        match self {
            Credential::Phrase(text) => CredentialModel::Phrase(text@),
            Credential::SpendingKey(text) => CredentialModel::SpendingKey(text@),
            Credential::ViewingKey(text) => CredentialModel::ViewingKey(text@),
        }
    }
}

/// What the wallet is opened from.
#[derive(Debug)]
pub enum WalletBase {
    Mnemonic { phrase: String, no_of_accounts: u32 },
    Usk(Vec<u8>),
    Ufvk(String),
}

/// What `WalletBase` holds.
pub enum WalletBaseModel {
    Mnemonic { phrase: Seq<char>, no_of_accounts: u32 },
    Usk(Seq<u8>),
    Ufvk(Seq<char>),
}

impl View for WalletBase {
    type V = WalletBaseModel;

    open spec fn view(&self) -> WalletBaseModel {
        match self {
            WalletBase::Mnemonic { phrase, no_of_accounts } => WalletBaseModel::Mnemonic {
                phrase: phrase@,
                no_of_accounts: *no_of_accounts,
            },
            WalletBase::Usk(bytes) => WalletBaseModel::Usk(bytes@),
            WalletBase::Ufvk(key) => WalletBaseModel::Ufvk(key@),
        }
    }
}

/// What a fallible construction of a `WalletBase` came to.
pub open spec fn base_outcome(base: Result<WalletBase, ConfigError>) -> Result<
    WalletBaseModel,
    ErrorModel,
> {
    match base {
        Ok(b) => Ok(b@),
        Err(e) => Err(e@),
    }
}

/// The variables that can hold a mnemonic, in the order in which they count.
pub open spec fn mnemonic_names() -> Seq<Seq<char>> {
    seq!["ZCASH_MNEMONIC"@, "ZCASH_SEED"@, "ZCASH_SPENDING_KEY"@]
}

/// The variables that can hold a viewing key, in the order in which they count.
pub open spec fn viewing_key_names() -> Seq<Seq<char>> {
    seq!["ZCASH_UFVK"@, "ZCASH_VIEWING_KEY"@]
}

/// The credential in `env`: a mnemonic before a spending key, and that before a
/// viewing key.
pub open spec fn credential_in(env: Map<Seq<char>, Seq<char>>) -> Option<CredentialModel> {
    match first_filled(env, mnemonic_names()) {
        Some(text) => Some(CredentialModel::Phrase(text)),
        None => match first_filled(env, seq!["ZCASH_USK"@]) {
            Some(text) => Some(CredentialModel::SpendingKey(text)),
            None => match first_filled(env, viewing_key_names()) {
                Some(text) => Some(CredentialModel::ViewingKey(text)),
                None => None,
            },
        },
    }
}

/// The bytes of the spending key that `raw` writes: hexadecimal where it is that,
/// base64 otherwise.
pub open spec fn usk_bytes(raw: Seq<char>) -> Option<Seq<u8>> {
    match hex_bytes(raw) {
        Some(bytes) => Some(bytes),
        None => base64_bytes(raw),
    }
}

/// What a mnemonic opens that came to the given phrase, or to what is wrong with it.
pub open spec fn base_of_phrase(phrase: Result<Seq<char>, Seq<char>>) -> Result<
    WalletBaseModel,
    ErrorModel,
> {
    match phrase {
        Ok(phrase) => Ok(
            WalletBaseModel::Mnemonic { phrase, no_of_accounts: NO_OF_ACCOUNTS },
        ),
        Err(cause) => Err(ErrorModel::InvalidMnemonic { cause }),
    }
}

/// What a spending key with the given bytes opens.
pub open spec fn base_of_usk(bytes: Option<Seq<u8>>) -> Result<WalletBaseModel, ErrorModel> {
    match bytes {
        Some(bytes) => Ok(WalletBaseModel::Usk(bytes)),
        None => Err(ErrorModel::InvalidSpendingKey),
    }
}

/// What a credential opens.
pub open spec fn base_of(credential: Option<CredentialModel>) -> Result<
    WalletBaseModel,
    ErrorModel,
> {
    match credential {
        Some(CredentialModel::Phrase(text)) => base_of_phrase(mnemonic_phrase(text)),
        Some(CredentialModel::SpendingKey(text)) => base_of_usk(usk_bytes(text)),
        Some(CredentialModel::ViewingKey(text)) => Ok(WalletBaseModel::Ufvk(text)),
        None => Err(ErrorModel::MissingCredential),
    }
}

/// Picks the credential that the environment names. The first kind that is
/// present counts, whether or not it will turn out to be valid.
pub fn credential_from_env(env: &Environment) -> (credential: Option<Credential>)
    ensures
        match credential {
            Some(c) => credential_in(env@) == Some(c@),
            None => credential_in(env@) is None,
        },
        match credential {
            Some(Credential::Phrase(text)) => credential_in(env@) == Some(
                CredentialModel::Phrase(text@),
            ),
            Some(Credential::SpendingKey(text)) => credential_in(env@) == Some(
                CredentialModel::SpendingKey(text@),
            ),
            Some(Credential::ViewingKey(text)) => credential_in(env@) == Some(
                CredentialModel::ViewingKey(text@),
            ),
            None => credential_in(env@) is None,
        },
{
    let mnemonic_keys = ["ZCASH_MNEMONIC", "ZCASH_SEED", "ZCASH_SPENDING_KEY"];
    assert(mnemonic_keys.deep_view() == mnemonic_names());
    if let Some(text) = first_env(env, &mnemonic_keys) {
        return Some(Credential::Phrase(text));
    }
    let usk_keys = ["ZCASH_USK"];
    assert(usk_keys.deep_view() == seq!["ZCASH_USK"@]);
    if let Some(text) = first_env(env, &usk_keys) {
        return Some(Credential::SpendingKey(text));
    }
    let viewing_keys = ["ZCASH_UFVK", "ZCASH_VIEWING_KEY"];
    assert(viewing_keys.deep_view() == viewing_key_names());
    if let Some(text) = first_env(env, &viewing_keys) {
        return Some(Credential::ViewingKey(text));
    }
    None
}

/// Reads a unified spending key, as hexadecimal or else as base64.
pub fn parse_usk_bytes(raw: &str) -> (bytes: Option<Vec<u8>>)
    ensures
        bytes_of(bytes) == usk_bytes(raw@),
        bytes is Some <==> hex_bytes(raw@) is Some || base64_bytes(raw@) is Some,
        hex_bytes(raw@) is Some ==> bytes->0@ == hex_bytes(raw@)->0,
        hex_bytes(raw@) is None && base64_bytes(raw@) is Some ==> bytes->0@ == base64_bytes(
            raw@,
        )->0,
{
    match hex_decode(raw) {
        Some(bytes) => Some(bytes),
        None => base64_decode(raw),
    }
}

/// Opens the mnemonic with the given phrase, or reports what is wrong with it.
pub fn mnemonic_base(phrase: Result<String, String>) -> (base: Result<WalletBase, ConfigError>)
    ensures
        base_outcome(base) == base_of_phrase(text_outcome(phrase)),
        match phrase {
            Ok(words) => base matches Ok(WalletBase::Mnemonic { phrase: kept, no_of_accounts })
                && kept@ == words@ && no_of_accounts == 1,
            Err(why) => base matches Err(ConfigError::InvalidMnemonic { cause }) && cause@ == why@,
        },
{
    match phrase {
        Ok(phrase) => Ok(WalletBase::Mnemonic { phrase, no_of_accounts: NO_OF_ACCOUNTS }),
        Err(cause) => Err(ConfigError::InvalidMnemonic { cause }),
    }
}

/// Opens the spending key with the given bytes, if there is one.
pub fn usk_base(bytes: Option<Vec<u8>>) -> (base: Result<WalletBase, ConfigError>)
    ensures
        base_outcome(base) == base_of_usk(bytes_of(bytes)),
        match bytes {
            Some(key) => base matches Ok(WalletBase::Usk(kept)) && kept@ == key@,
            None => base matches Err(e) && e is InvalidSpendingKey,
        },
{
    match bytes {
        Some(bytes) => Ok(WalletBase::Usk(bytes)),
        None => Err(ConfigError::InvalidSpendingKey),
    }
}

/// Reads what the wallet is opened from.
pub fn wallet_base_from_env(env: &Environment) -> (base: Result<WalletBase, ConfigError>)
    ensures
        base_outcome(base) == base_of(credential_in(env@)),
        match credential_in(env@) {
            Some(CredentialModel::Phrase(text)) => match base {
                Ok(WalletBase::Mnemonic { phrase, no_of_accounts }) => mnemonic_phrase(text) == Ok::<
                    Seq<char>,
                    Seq<char>,
                >(phrase@) && no_of_accounts == 1,
                Err(ConfigError::InvalidMnemonic { cause }) => mnemonic_phrase(text) == Err::<
                    Seq<char>,
                    Seq<char>,
                >(cause@),
                _ => false,
            },
            Some(CredentialModel::SpendingKey(text)) => match base {
                Ok(WalletBase::Usk(bytes)) => usk_bytes(text) == Some(bytes@),
                Err(ConfigError::InvalidSpendingKey) => usk_bytes(text) is None,
                _ => false,
            },
            Some(CredentialModel::ViewingKey(text)) => base matches Ok(WalletBase::Ufvk(key))
                && key@ == text,
            None => base matches Err(e) && e is MissingCredential,
        },
{
    match credential_from_env(env) {
        Some(Credential::Phrase(text)) => mnemonic_base(parse_mnemonic(text.as_str())),
        Some(Credential::SpendingKey(text)) => usk_base(parse_usk_bytes(text.as_str())),
        Some(Credential::ViewingKey(text)) => Ok(WalletBase::Ufvk(text)),
        None => Err(ConfigError::MissingCredential),
    }
}

/// A mnemonic counts before a spending key, and a spending key before a viewing
/// key, whatever else is set. The sidecar reports a missing credential exactly when
/// all six variables are absent or blank.
pub proof fn credentials_in_order(env: Map<Seq<char>, Seq<char>>)
    ensures
        ({
            let phrase = exists|i: int|
                0 <= i < 3 && filled(env, #[trigger] mnemonic_names()[i]) is Some;
            let spending = filled(env, "ZCASH_USK"@) is Some;
            let viewing = exists|i: int|
                0 <= i < 2 && filled(env, #[trigger] viewing_key_names()[i]) is Some;
            &&& phrase <==> (credential_in(env) matches Some(c) && c is Phrase)
            &&& !phrase && spending <==> (credential_in(env) matches Some(c) && c is SpendingKey)
            &&& !phrase && !spending && viewing <==> (credential_in(env) matches Some(c)
                && c is ViewingKey)
            &&& !phrase && !spending && !viewing <==> base_of(credential_in(env)) == Err::<
                WalletBaseModel,
                ErrorModel,
            >(ErrorModel::MissingCredential)
        }),
{
    first_filled_is_first(env, mnemonic_names());
    first_filled_is_first(env, seq!["ZCASH_USK"@]);
    first_filled_is_first(env, viewing_key_names());
}

/// A mnemonic that does not parse is reported, with what is wrong with it. It is not
/// passed over for another credential.
pub proof fn bad_mnemonic_is_final(env: Map<Seq<char>, Seq<char>>, text: Seq<char>)
    requires
        credential_in(env) == Some(CredentialModel::Phrase(text)),
        mnemonic_phrase(text) is Err,
    ensures
        base_of(credential_in(env)) == Err::<WalletBaseModel, ErrorModel>(
            ErrorModel::InvalidMnemonic { cause: mnemonic_phrase(text)->Err_0 },
        ),
{
}

/// The credential is what the first of six variables holds that is filled, as it stands
/// there. A variable that comes later never counts while an earlier one is filled.
pub proof fn first_filled_variable_is_the_credential(env: Map<Seq<char>, Seq<char>>)
    ensures
        filled(env, "ZCASH_MNEMONIC"@) is Some
            ==> credential_in(env) == Some(CredentialModel::Phrase(env["ZCASH_MNEMONIC"@])),
        filled(env, "ZCASH_SEED"@) is Some && filled(env, "ZCASH_MNEMONIC"@) is None
            ==> credential_in(env) == Some(CredentialModel::Phrase(env["ZCASH_SEED"@])),
        filled(env, "ZCASH_SPENDING_KEY"@) is Some && filled(env, "ZCASH_MNEMONIC"@) is None && filled(env, "ZCASH_SEED"@) is None
            ==> credential_in(env) == Some(CredentialModel::Phrase(env["ZCASH_SPENDING_KEY"@])),
        filled(env, "ZCASH_USK"@) is Some && filled(env, "ZCASH_MNEMONIC"@) is None && filled(env, "ZCASH_SEED"@) is None && filled(env, "ZCASH_SPENDING_KEY"@) is None
            ==> credential_in(env) == Some(CredentialModel::SpendingKey(env["ZCASH_USK"@])),
        filled(env, "ZCASH_UFVK"@) is Some && filled(env, "ZCASH_MNEMONIC"@) is None && filled(env, "ZCASH_SEED"@) is None && filled(env, "ZCASH_SPENDING_KEY"@) is None && filled(env, "ZCASH_USK"@) is None
            ==> credential_in(env) == Some(CredentialModel::ViewingKey(env["ZCASH_UFVK"@])),
        filled(env, "ZCASH_VIEWING_KEY"@) is Some && filled(env, "ZCASH_MNEMONIC"@) is None && filled(env, "ZCASH_SEED"@) is None && filled(env, "ZCASH_SPENDING_KEY"@) is None && filled(env, "ZCASH_USK"@) is None && filled(env, "ZCASH_UFVK"@) is None
            ==> credential_in(env) == Some(CredentialModel::ViewingKey(env["ZCASH_VIEWING_KEY"@])),
        filled(env, "ZCASH_MNEMONIC"@) is None && filled(env, "ZCASH_SEED"@) is None && filled(env, "ZCASH_SPENDING_KEY"@) is None && filled(env, "ZCASH_USK"@) is None && filled(env, "ZCASH_UFVK"@) is None && filled(env, "ZCASH_VIEWING_KEY"@) is None
            ==> credential_in(env) is None,
{
    first_filled_is_first(env, mnemonic_names());
    first_filled_is_first(env, seq!["ZCASH_USK"@]);
    first_filled_is_first(env, viewing_key_names());
}

/// A credential opens the wallet that it is the credential of: a mnemonic one with its
/// phrase and a single account, a spending key one with its bytes, and a viewing key one
/// with the key as it stands. A wallet that is opened from one of them is never one that
/// another would open.
pub proof fn credential_opens_its_wallet(text: Seq<char>, base: WalletBaseModel)
    ensures
        base_of(Some(CredentialModel::Phrase(text))) == Ok::<WalletBaseModel, ErrorModel>(base)
            <==> base is Mnemonic && base->no_of_accounts == 1 && mnemonic_phrase(text) == Ok::<
            Seq<char>,
            Seq<char>,
        >(base->phrase),
        base_of(Some(CredentialModel::SpendingKey(text))) == Ok::<WalletBaseModel, ErrorModel>(base)
            <==> base is Usk && usk_bytes(text) == Some(base->Usk_0),
        base_of(Some(CredentialModel::ViewingKey(text))) == Ok::<WalletBaseModel, ErrorModel>(base)
            <==> base is Ufvk && base->Ufvk_0 == text,
{
}

/// A credential that opens nothing is reported by what is wrong with it.
pub proof fn bad_credentials_are_reported(text: Seq<char>)
    ensures
        mnemonic_phrase(text) is Err ==> base_of(Some(CredentialModel::Phrase(text))) == Err::<
            WalletBaseModel,
            ErrorModel,
        >(ErrorModel::InvalidMnemonic { cause: mnemonic_phrase(text)->Err_0 }),
        usk_bytes(text) is None ==> base_of(Some(CredentialModel::SpendingKey(text))) == Err::<
            WalletBaseModel,
            ErrorModel,
        >(ErrorModel::InvalidSpendingKey),
        base_of(None) == Err::<WalletBaseModel, ErrorModel>(ErrorModel::MissingCredential),
{
}

} // verus!
