//! What the light client is made from.

use vstd::prelude::*;

use crate::environment::Environment;
use crate::error::{ConfigError, ErrorModel};
use crate::outside::{minimal_discovery, parse_uri, uri_text, AddressDiscovery};
use crate::settings::{
    each_variable_sets_its_own, settings_in, ChainType, Settings, SettingsModel,
};
use crate::text::text_outcome;
use crate::wallet::{
    base_of, base_outcome, credential_in, wallet_base_from_env, WalletBase, WalletBaseModel,
};

verus! {

/// The block from which a wallet is scanned.
pub const BIRTHDAY: u32 = 0;

/// How much memory a sync may use to be fast.
#[derive(Clone, Copy, Debug, PartialEq, Eq, Structural)]
pub enum PerformanceLevel {
    Low,
    Medium,
    High,
    Maximum,
}

/// Everything that the light client is made from.
#[derive(Debug)]
pub struct ClientPlan {
    pub wallet_base: WalletBase,
    /// The URI of the light wallet server.
    pub server_uri: String,
    pub data_dir: String,
    pub chain_type: ChainType,
    pub transparent_address_discovery: AddressDiscovery,
    pub performance_level: PerformanceLevel,
    pub min_confirmations: u32,
    /// The name of the wallet file; empty for the usual one.
    pub wallet_name: String,
    pub birthday: u32,
    /// Whether a wallet file that is already there may be replaced.
    pub overwrite: bool,
}

/// What `ClientPlan` holds.
#[verifier::ext_equal]
pub struct PlanModel {
    pub wallet_base: WalletBaseModel,
    pub server_uri: Seq<char>,
    pub data_dir: Seq<char>,
    pub chain_type: ChainType,
    pub transparent_address_discovery: AddressDiscovery,
    pub performance_level: PerformanceLevel,
    pub min_confirmations: u32,
    pub wallet_name: Seq<char>,
    pub birthday: u32,
    pub overwrite: bool,
}

impl View for ClientPlan {
    type V = PlanModel;

    open spec fn view(&self) -> PlanModel {
        PlanModel {
            wallet_base: self.wallet_base@,
            server_uri: self.server_uri@,
            data_dir: self.data_dir@,
            chain_type: self.chain_type,
            transparent_address_discovery: self.transparent_address_discovery,
            performance_level: self.performance_level,
            min_confirmations: self.min_confirmations,
            wallet_name: self.wallet_name@,
            birthday: self.birthday,
            overwrite: self.overwrite,
        }
    }
}

/// What a fallible construction of a `ClientPlan` came to.
pub open spec fn plan_outcome(plan: Result<ClientPlan, ConfigError>) -> Result<
    PlanModel,
    ErrorModel,
> {
    match plan {
        Ok(p) => Ok(p@),
        Err(e) => Err(e@),
    }
}

/// The plan for a wallet opened from `base` and a server at `uri`, under the given
/// settings. Trouble with the credential is reported before trouble with the URI.
pub open spec fn plan_with(
    settings: SettingsModel,
    base: Result<WalletBaseModel, ErrorModel>,
    uri: Result<Seq<char>, Seq<char>>,
) -> Result<PlanModel, ErrorModel> {
    match (base, uri) {
        (Err(e), _) => Err(e),
        (Ok(_), Err(cause)) => Err(ErrorModel::InvalidEndpoint { cause }),
        (Ok(wallet_base), Ok(server_uri)) => Ok(
            PlanModel {
                wallet_base,
                server_uri,
                data_dir: settings.data_dir,
                chain_type: settings.chain_type,
                transparent_address_discovery: AddressDiscovery {
                    gap_limit: 1,
                    external: true,
                    internal: false,
                    refund: true,
                },
                performance_level: PerformanceLevel::High,
                min_confirmations: settings.min_confirmations,
                wallet_name: Seq::empty(),
                birthday: BIRTHDAY,
                overwrite: false,
            },
        ),
    }
}

/// Puts the plan together, given what the credential opened and what the
/// endpoint reads as.
pub fn build_plan(
    settings: &Settings,
    base: Result<WalletBase, ConfigError>,
    uri: Result<String, String>,
) -> (plan: Result<ClientPlan, ConfigError>)
    ensures
        plan_outcome(plan) == plan_with(settings@, base_outcome(base), text_outcome(uri)),
        match plan {
            Ok(p) => {
                &&& base is Ok && p.wallet_base == base->Ok_0
                &&& uri is Ok && p.server_uri@ == uri->Ok_0@
                &&& p.data_dir@ == settings.data_dir@
                &&& p.chain_type == settings.chain_type
                &&& p.min_confirmations == settings.min_confirmations
                &&& p.transparent_address_discovery.gap_limit == 1
                &&& p.transparent_address_discovery.external
                &&& !p.transparent_address_discovery.internal
                &&& p.transparent_address_discovery.refund
                &&& p.performance_level == PerformanceLevel::High
                &&& p.wallet_name@.len() == 0
                &&& p.birthday == 0
                &&& !p.overwrite
            },
            Err(e) => match base {
                Err(trouble) => e == trouble,
                Ok(_) => e matches ConfigError::InvalidEndpoint { cause } && uri is Err && cause@
                    == uri->Err_0@,
            },
        },
{
    let wallet_base = match base {
        Ok(base) => base,
        Err(error) => {
            return Err(error);
        },
    };
    let transparent_address_discovery = minimal_discovery();
    let server_uri = match uri {
        Ok(uri) => uri,
        Err(cause) => {
            return Err(ConfigError::InvalidEndpoint { cause });
        },
    };
    Ok(
        ClientPlan {
            wallet_base,
            server_uri,
            data_dir: settings.data_dir.clone(),
            chain_type: settings.chain_type,
            transparent_address_discovery,
            performance_level: PerformanceLevel::High,
            min_confirmations: settings.min_confirmations,
            wallet_name: String::new(),
            birthday: BIRTHDAY,
            overwrite: false,
        },
    )
}

/// Plans the light client from the settings and the credential in the
/// environment.
pub fn plan_lightclient(settings: &Settings, env: &Environment) -> (plan: Result<
    ClientPlan,
    ConfigError,
>)
    ensures
        plan_outcome(plan) == plan_with(
            settings@,
            base_of(credential_in(env@)),
            uri_text(settings.lightwalletd_uri@),
        ),
        match plan {
            Ok(p) => {
                &&& base_of(credential_in(env@)) == Ok::<WalletBaseModel, ErrorModel>(
                    p.wallet_base@,
                )
                &&& uri_text(settings.lightwalletd_uri@) == Ok::<Seq<char>, Seq<char>>(
                    p.server_uri@,
                )
                &&& p.data_dir@ == settings.data_dir@
                &&& p.chain_type == settings.chain_type
                &&& p.min_confirmations == settings.min_confirmations
                &&& p.transparent_address_discovery.gap_limit == 1
                &&& p.transparent_address_discovery.external
                &&& !p.transparent_address_discovery.internal
                &&& p.transparent_address_discovery.refund
                &&& p.performance_level == PerformanceLevel::High
                &&& p.wallet_name@.len() == 0
                &&& p.birthday == 0
                &&& !p.overwrite
            },
            Err(e) => match base_of(credential_in(env@)) {
                Err(trouble) => e@ == trouble,
                Ok(_) => e matches ConfigError::InvalidEndpoint { cause } && uri_text(
                    settings.lightwalletd_uri@,
                ) == Err::<Seq<char>, Seq<char>>(cause@),
            },
        },
{
    let base = wallet_base_from_env(env);
    build_plan(settings, base, parse_uri(settings.lightwalletd_uri.as_str()))
}

/// A plan carries the settings that it was made under, the wallet that the credential
/// opened and the server that the endpoint reads as. It looks one transparent address
/// ahead, scans from the first block, and replaces no wallet file.
pub proof fn plan_carries_what_it_was_made_from(
    settings: SettingsModel,
    base: Result<WalletBaseModel, ErrorModel>,
    uri: Result<Seq<char>, Seq<char>>,
)
    requires
        plan_with(settings, base, uri) is Ok,
    ensures
        ({
            let plan = plan_with(settings, base, uri)->Ok_0;
            &&& plan.chain_type == settings.chain_type
            &&& plan.data_dir == settings.data_dir
            &&& plan.min_confirmations == settings.min_confirmations
            &&& base == Ok::<WalletBaseModel, ErrorModel>(plan.wallet_base)
            &&& uri == Ok::<Seq<char>, Seq<char>>(plan.server_uri)
            &&& plan.transparent_address_discovery.gap_limit == 1
            &&& plan.transparent_address_discovery.external
            &&& !plan.transparent_address_discovery.internal
            &&& plan.transparent_address_discovery.refund
            &&& plan.performance_level == PerformanceLevel::High
            &&& plan.wallet_name.len() == 0
            &&& plan.birthday == 0
            &&& !plan.overwrite
        }),
{
}

/// There is a plan exactly when the credential opens a wallet and the endpoint is a
/// URI. Otherwise the trouble with the credential is reported, or where there is none,
/// the trouble with the endpoint.
pub proof fn trouble_is_reported_in_order(
    settings: SettingsModel,
    base: Result<WalletBaseModel, ErrorModel>,
    uri: Result<Seq<char>, Seq<char>>,
)
    ensures
        plan_with(settings, base, uri) is Ok <==> base is Ok && uri is Ok,
        base is Err ==> plan_with(settings, base, uri) == Err::<PlanModel, ErrorModel>(
            base->Err_0,
        ),
        base is Ok && uri is Err ==> plan_with(settings, base, uri) == Err::<PlanModel, ErrorModel>(
            ErrorModel::InvalidEndpoint { cause: uri->Err_0 },
        ),
{
}

/// The environment decides what is opened: the wallet lives on mainnet exactly where
/// `ZCASH_NETWORK` says so, and on testnet where it says that or nothing; its files lie
/// in `ZCASH_DATA_DIR`, and its server is the one at `LIGHTWALLETD_ENDPOINT`.
pub proof fn environment_decides_plan(env: Map<Seq<char>, Seq<char>>, fault: Seq<char>)
    requires
        settings_in(env, fault) is Ok,
        plan_with(
            settings_in(env, fault)->Ok_0,
            base_of(credential_in(env)),
            uri_text(settings_in(env, fault)->Ok_0.lightwalletd_uri),
        ) is Ok,
    ensures
        ({
            let settings = settings_in(env, fault)->Ok_0;
            let plan = plan_with(
                settings,
                base_of(credential_in(env)),
                uri_text(settings.lightwalletd_uri),
            )->Ok_0;
            &&& plan.chain_type == ChainType::Mainnet <==> env.get("ZCASH_NETWORK"@) == Some(
                "mainnet"@,
            )
            &&& plan.chain_type == ChainType::Testnet <==> (!env.contains_key("ZCASH_NETWORK"@)
                || env["ZCASH_NETWORK"@] == "testnet"@)
            &&& env.contains_key("ZCASH_DATA_DIR"@) ==> plan.data_dir == env["ZCASH_DATA_DIR"@]
            &&& !env.contains_key("ZCASH_DATA_DIR"@) ==> plan.data_dir == ".zingo-http"@
            &&& uri_text(env["LIGHTWALLETD_ENDPOINT"@]) == Ok::<Seq<char>, Seq<char>>(
                plan.server_uri,
            )
            &&& base_of(credential_in(env)) == Ok::<WalletBaseModel, ErrorModel>(plan.wallet_base)
            &&& plan.min_confirmations > 0
        }),
{
    each_variable_sets_its_own(env, fault);
}

} // verus!
