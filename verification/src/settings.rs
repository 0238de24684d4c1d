//! The settings of the sidecar and how the environment gives them.

use vstd::prelude::*;

use crate::environment::{env_or, filled, filled_env, or_default, Environment};
use crate::error::{ConfigError, ErrorModel};
use crate::text::{blank, parse_u32, parse_u64, unsigned, unsigned_u32, unsigned_u64};

verus! {

pub const DEFAULT_PORT: &'static str = "8787";

pub const DEFAULT_BIND_ADDR: &'static str = "127.0.0.1";

pub const DEFAULT_DATA_DIR: &'static str = ".zingo-http";

pub const DEFAULT_NETWORK: &'static str = "testnet";

pub const DEFAULT_SYNC_INTERVAL_SECS: u64 = 30;

pub const DEFAULT_MIN_CONFIRMATIONS: u32 = 3;

/// The networks that a wallet can live on.
#[derive(Clone, Copy, Debug, PartialEq, Eq, Structural)]
pub enum ChainType {
    Mainnet,
    Testnet,
}

impl ChainType {
    /// The network as it is reported.
    pub open spec fn text(self) -> Seq<char> {
        match self {
            ChainType::Mainnet => "Mainnet"@,
            ChainType::Testnet => "Testnet"@,
        }
    }

    /// The network as it is reported.
    pub fn name(&self) -> (name: &'static str)
        ensures
            name@ == self.text(),
    {
        match self {
            ChainType::Mainnet => "Mainnet",
            ChainType::Testnet => "Testnet",
        }
    }
}

/// What the sidecar runs with.
#[derive(Clone, Debug)]
pub struct Settings {
    /// Where the light wallet server answers.
    pub lightwalletd_uri: String,
    /// Where the wallet keeps its files.
    pub data_dir: String,
    pub chain_type: ChainType,
    /// What a request has to present, if anything.
    pub api_key: Option<String>,
    pub bind_addr: String,
    pub port: String,
    /// Seconds from one background sync to the next.
    pub sync_interval_secs: u64,
    /// How deep a note has to be buried to count as confirmed; never zero.
    pub min_confirmations: u32,
}

/// What `Settings` holds, with texts as sequences of characters.
#[verifier::ext_equal]
pub struct SettingsModel {
    pub lightwalletd_uri: Seq<char>,
    pub data_dir: Seq<char>,
    pub chain_type: ChainType,
    pub api_key: Option<Seq<char>>,
    pub bind_addr: Seq<char>,
    pub port: Seq<char>,
    pub sync_interval_secs: u64,
    pub min_confirmations: u32,
}

impl View for Settings {
    type V = SettingsModel;

    open spec fn view(&self) -> SettingsModel {
        SettingsModel {
            lightwalletd_uri: self.lightwalletd_uri@,
            data_dir: self.data_dir@,
            chain_type: self.chain_type,
            api_key: self.api_key.deep_view(),
            bind_addr: self.bind_addr@,
            port: self.port@,
            sync_interval_secs: self.sync_interval_secs,
            min_confirmations: self.min_confirmations,
        }
    }
}

impl SettingsModel {
    /// Where the sidecar listens, as `address:port`.
    pub open spec fn listen_text(self) -> Seq<char> {
        self.bind_addr + ":"@ + self.port
    }
}

/// The network that a name stands for.
pub open spec fn chain_named(name: Seq<char>) -> Option<ChainType> {
    if name == "mainnet"@ {
        Some(ChainType::Mainnet)
    } else if name == "testnet"@ {
        Some(ChainType::Testnet)
    } else {
        None
    }
}

/// The sync interval that `env` asks for: the default where it asks for none,
/// or not for a number.
pub open spec fn interval_in(env: Map<Seq<char>, Seq<char>>) -> u64 {
    match env.get("ZCASH_SYNC_INTERVAL_SECS"@) {
        Some(text) => match unsigned_u64(text) {
            Some(secs) => secs,
            None => DEFAULT_SYNC_INTERVAL_SECS,
        },
        None => DEFAULT_SYNC_INTERVAL_SECS,
    }
}

/// The number of confirmations that `env` asks for: the default where it asks
/// for none, not for a number, or for zero.
pub open spec fn confirmations_in(env: Map<Seq<char>, Seq<char>>) -> u32 {
    match env.get("ZCASH_MIN_CONFIRMATIONS"@) {
        Some(text) => match unsigned_u32(text) {
            Some(count) => if count == 0 {
                DEFAULT_MIN_CONFIRMATIONS
            } else {
                count
            },
            None => DEFAULT_MIN_CONFIRMATIONS,
        },
        None => DEFAULT_MIN_CONFIRMATIONS,
    }
}

/// The settings that `env` describes, or what is wrong with it. `fault` is why the
/// endpoint cannot be read, where `env` does not hold it.
pub open spec fn settings_in(env: Map<Seq<char>, Seq<char>>, fault: Seq<char>) -> Result<
    SettingsModel,
    ErrorModel,
> {
    match env.get("LIGHTWALLETD_ENDPOINT"@) {
        None => Err(ErrorModel::MissingEndpoint { cause: fault }),
        Some(lightwalletd_uri) => match chain_named(
            or_default(env, "ZCASH_NETWORK"@, DEFAULT_NETWORK@),
        ) {
            None => Err(ErrorModel::InvalidNetwork),
            Some(chain_type) => Ok(
                SettingsModel {
                    lightwalletd_uri,
                    data_dir: or_default(env, "ZCASH_DATA_DIR"@, DEFAULT_DATA_DIR@),
                    chain_type,
                    api_key: filled(env, "ZCASH_LIGHT_CLIENT_API_KEY"@),
                    bind_addr: or_default(env, "BIND_ADDR"@, DEFAULT_BIND_ADDR@),
                    port: or_default(env, "PORT"@, DEFAULT_PORT@),
                    sync_interval_secs: interval_in(env),
                    min_confirmations: confirmations_in(env),
                },
            ),
        },
    }
}

/// Reads the name of a network.
fn chain_from_name(name: &String) -> (chain: Option<ChainType>)
    ensures
        chain == chain_named(name@),
{
    if *name == "mainnet".to_string() {
        Some(ChainType::Mainnet)
    } else if *name == "testnet".to_string() {
        Some(ChainType::Testnet)
    } else {
        None
    }
}

/// Reads the sync interval.
fn sync_interval(env: &Environment) -> (secs: u64)
    ensures
        secs == interval_in(env@),
{
    match env.get("ZCASH_SYNC_INTERVAL_SECS") {
        Some(text) => match parse_u64(text.as_str()) {
            Some(secs) => secs,
            None => DEFAULT_SYNC_INTERVAL_SECS,
        },
        None => DEFAULT_SYNC_INTERVAL_SECS,
    }
}

/// Reads the number of confirmations.
fn min_confirmations(env: &Environment) -> (count: u32)
    ensures
        count == confirmations_in(env@),
        count > 0,
{
    match env.get("ZCASH_MIN_CONFIRMATIONS") {
        Some(text) => match parse_u32(text.as_str()) {
            Some(count) => if count == 0 {
                DEFAULT_MIN_CONFIRMATIONS
            } else {
                count
            },
            None => DEFAULT_MIN_CONFIRMATIONS,
        },
        None => DEFAULT_MIN_CONFIRMATIONS,
    }
}

impl Settings {
    /// At least one confirmation is asked for.
    pub open spec fn wf(self) -> bool {
        self.min_confirmations > 0
    }

    /// Reads the settings from the environment. What is missing takes its
    /// default, the endpoint excepted.
    pub fn from_env(env: &Environment) -> (settings: Result<Settings, ConfigError>)
        ensures
            ({
                let expected = settings_in(env@, env.fault("LIGHTWALLETD_ENDPOINT"@));
                match settings {
                    Ok(s) => expected == Ok::<SettingsModel, ErrorModel>(s@) && s.wf(),
                    Err(e) => expected == Err::<SettingsModel, ErrorModel>(e@),
                }
            }),
            match settings {
                Ok(s) => {
                    &&& env@.get("LIGHTWALLETD_ENDPOINT"@) == Some(s.lightwalletd_uri@)
                    &&& s.data_dir@ == (if env@.contains_key("ZCASH_DATA_DIR"@) {
                        env@["ZCASH_DATA_DIR"@]
                    } else {
                        ".zingo-http"@
                    })
                    &&& s.chain_type == (if env@.get("ZCASH_NETWORK"@) == Some("mainnet"@) {
                        ChainType::Mainnet
                    } else {
                        ChainType::Testnet
                    })
                    &&& s.api_key.deep_view() == (if env@.contains_key(
                        "ZCASH_LIGHT_CLIENT_API_KEY"@,
                    ) && !blank(env@["ZCASH_LIGHT_CLIENT_API_KEY"@]) {
                        Some(env@["ZCASH_LIGHT_CLIENT_API_KEY"@])
                    } else {
                        None
                    })
                    &&& s.bind_addr@ == (if env@.contains_key("BIND_ADDR"@) {
                        env@["BIND_ADDR"@]
                    } else {
                        "127.0.0.1"@
                    })
                    &&& s.port@ == (if env@.contains_key("PORT"@) {
                        env@["PORT"@]
                    } else {
                        "8787"@
                    })
                    &&& env@.contains_key("ZCASH_SYNC_INTERVAL_SECS"@) && unsigned(env@["ZCASH_SYNC_INTERVAL_SECS"@]) is Some
                        && unsigned(env@["ZCASH_SYNC_INTERVAL_SECS"@])->0 <= u64::MAX
                        ==> s.sync_interval_secs == unsigned(env@["ZCASH_SYNC_INTERVAL_SECS"@])->0
                    &&& !(env@.contains_key("ZCASH_SYNC_INTERVAL_SECS"@) && unsigned(env@["ZCASH_SYNC_INTERVAL_SECS"@]) is Some
                        && unsigned(env@["ZCASH_SYNC_INTERVAL_SECS"@])->0 <= u64::MAX)
                        ==> s.sync_interval_secs == 30
                    &&& env@.contains_key("ZCASH_MIN_CONFIRMATIONS"@) && unsigned(env@["ZCASH_MIN_CONFIRMATIONS"@]) is Some
                        && 0 < unsigned(env@["ZCASH_MIN_CONFIRMATIONS"@])->0 <= u32::MAX
                        ==> s.min_confirmations == unsigned(env@["ZCASH_MIN_CONFIRMATIONS"@])->0
                    &&& !(env@.contains_key("ZCASH_MIN_CONFIRMATIONS"@) && unsigned(env@["ZCASH_MIN_CONFIRMATIONS"@]) is Some
                        && 0 < unsigned(env@["ZCASH_MIN_CONFIRMATIONS"@])->0 <= u32::MAX)
                        ==> s.min_confirmations == 3
                },
                Err(ConfigError::MissingEndpoint { cause }) => !env@.contains_key(
                    "LIGHTWALLETD_ENDPOINT"@,
                ) && cause@ == env.fault("LIGHTWALLETD_ENDPOINT"@),
                Err(ConfigError::InvalidNetwork) => {
                    &&& env@.contains_key("LIGHTWALLETD_ENDPOINT"@)
                    &&& env@.contains_key("ZCASH_NETWORK"@)
                    &&& env@["ZCASH_NETWORK"@] != "mainnet"@
                    &&& env@["ZCASH_NETWORK"@] != "testnet"@
                },
                Err(_) => false,
            },
    {
        proof {
            let fault = env.fault("LIGHTWALLETD_ENDPOINT"@);
            starts_exactly_when(env@, fault);
            if settings_in(env@, fault) is Ok {
                each_variable_sets_its_own(env@, fault);
            }
        }
        let lightwalletd_uri = match env.read("LIGHTWALLETD_ENDPOINT") {
            Ok(uri) => uri,
            Err(cause) => {
                return Err(ConfigError::MissingEndpoint { cause });
            },
        };
        let data_dir = env_or(env, "ZCASH_DATA_DIR", DEFAULT_DATA_DIR);
        let api_key = filled_env(env, "ZCASH_LIGHT_CLIENT_API_KEY");
        let bind_addr = env_or(env, "BIND_ADDR", DEFAULT_BIND_ADDR);
        let port = env_or(env, "PORT", DEFAULT_PORT);
        let sync_interval_secs: u64 = sync_interval(env);
        let min_confirmations: u32 = min_confirmations(env);

        let network = env_or(env, "ZCASH_NETWORK", DEFAULT_NETWORK);
        let chain_type = match chain_from_name(&network) {
            Some(chain_type) => chain_type,
            None => {
                return Err(ConfigError::InvalidNetwork);
            },
        };

        Ok(
            Settings {
                lightwalletd_uri,
                data_dir,
                chain_type,
                api_key,
                bind_addr,
                port,
                sync_interval_secs,
                min_confirmations,
            },
        )
    }

    /// Where the sidecar listens, as `address:port`.
    pub fn listen_address(&self) -> (address: String)
        ensures
            address@ == self@.listen_text(),
            address@ == self.bind_addr@ + ":"@ + self.port@,
    {
        self.bind_addr.clone().concat(":").concat(self.port.as_str())
    }
}

/// Where nothing but the endpoint is set, the sidecar serves a testnet wallet kept
/// in `.zingo-http`, listens on `127.0.0.1:8787`, asks for no key, syncs every
/// thirty seconds and wants three confirmations.
pub proof fn defaults_apply(env: Map<Seq<char>, Seq<char>>, fault: Seq<char>)
    requires
        env.dom() == set!["LIGHTWALLETD_ENDPOINT"@],
    ensures
        settings_in(env, fault) is Ok,
        ({
            let settings = settings_in(env, fault)->Ok_0;
            &&& settings.lightwalletd_uri == env["LIGHTWALLETD_ENDPOINT"@]
            &&& settings.chain_type == ChainType::Testnet
            &&& settings.data_dir == ".zingo-http"@
            &&& settings.listen_text() == "127.0.0.1:8787"@
            &&& settings.api_key is None
            &&& settings.sync_interval_secs == 30
            &&& settings.min_confirmations == 3
        }),
{
    reveal_strlit("LIGHTWALLETD_ENDPOINT");
    reveal_strlit("ZCASH_NETWORK");
    reveal_strlit("ZCASH_DATA_DIR");
    reveal_strlit("ZCASH_LIGHT_CLIENT_API_KEY");
    reveal_strlit("BIND_ADDR");
    reveal_strlit("PORT");
    reveal_strlit("ZCASH_SYNC_INTERVAL_SECS");
    reveal_strlit("ZCASH_MIN_CONFIRMATIONS");
    assert("LIGHTWALLETD_ENDPOINT"@.len() == 21);
    assert("ZCASH_NETWORK"@.len() == 13);
    assert("ZCASH_DATA_DIR"@.len() == 14);
    assert("ZCASH_LIGHT_CLIENT_API_KEY"@.len() == 26);
    assert("BIND_ADDR"@.len() == 9);
    assert("PORT"@.len() == 4);
    assert("ZCASH_SYNC_INTERVAL_SECS"@.len() == 24);
    assert("ZCASH_MIN_CONFIRMATIONS"@.len() == 23);
    reveal_strlit("mainnet");
    reveal_strlit("testnet");
    assert("mainnet"@[0] != "testnet"@[0]);
    reveal_strlit("127.0.0.1");
    reveal_strlit(":");
    reveal_strlit("8787");
    reveal_strlit("127.0.0.1:8787");
    assert("127.0.0.1"@ + ":"@ + "8787"@ =~= "127.0.0.1:8787"@);
}

/// Only `mainnet` and `testnet` name a network. Any other name that is set keeps
/// the sidecar from starting.
pub proof fn unknown_network_is_refused(env: Map<Seq<char>, Seq<char>>, fault: Seq<char>)
    requires
        env.contains_key("LIGHTWALLETD_ENDPOINT"@),
        env.contains_key("ZCASH_NETWORK"@),
    ensures
        settings_in(env, fault) == Err::<SettingsModel, ErrorModel>(ErrorModel::InvalidNetwork)
            <==> (env["ZCASH_NETWORK"@] != "mainnet"@ && env["ZCASH_NETWORK"@] != "testnet"@),
{
}

/// The number of confirmations is never zero, whatever the environment holds.
pub proof fn confirmations_are_positive(env: Map<Seq<char>, Seq<char>>, fault: Seq<char>)
    requires
        settings_in(env, fault) is Ok,
    ensures
        settings_in(env, fault)->Ok_0.min_confirmations > 0,
{
}

/// Each variable sets its own setting, whatever else is set; a setting takes its
/// default only where its variable is absent, where the key is blank, or where a number
/// is wanted and the variable holds none that will do.
pub proof fn each_variable_sets_its_own(env: Map<Seq<char>, Seq<char>>, fault: Seq<char>)
    requires
        settings_in(env, fault) is Ok,
    ensures
        ({
            let settings = settings_in(env, fault)->Ok_0;
            &&& env.contains_key("LIGHTWALLETD_ENDPOINT"@)
            &&& settings.lightwalletd_uri == env["LIGHTWALLETD_ENDPOINT"@]
            &&& env.contains_key("ZCASH_DATA_DIR"@) ==> settings.data_dir == env["ZCASH_DATA_DIR"@]
            &&& !env.contains_key("ZCASH_DATA_DIR"@) ==> settings.data_dir == ".zingo-http"@
            &&& settings.chain_type == ChainType::Mainnet <==> env.get("ZCASH_NETWORK"@) == Some(
                "mainnet"@,
            )
            &&& settings.chain_type == ChainType::Testnet <==> (!env.contains_key("ZCASH_NETWORK"@)
                || env["ZCASH_NETWORK"@] == "testnet"@)
            &&& env.contains_key("ZCASH_LIGHT_CLIENT_API_KEY"@) && !blank(
                env["ZCASH_LIGHT_CLIENT_API_KEY"@],
            ) ==> settings.api_key == Some(env["ZCASH_LIGHT_CLIENT_API_KEY"@])
            &&& !env.contains_key("ZCASH_LIGHT_CLIENT_API_KEY"@) || blank(
                env["ZCASH_LIGHT_CLIENT_API_KEY"@],
            ) ==> settings.api_key is None
            &&& env.contains_key("BIND_ADDR"@) ==> settings.bind_addr == env["BIND_ADDR"@]
            &&& !env.contains_key("BIND_ADDR"@) ==> settings.bind_addr == "127.0.0.1"@
            &&& env.contains_key("PORT"@) ==> settings.port == env["PORT"@]
            &&& !env.contains_key("PORT"@) ==> settings.port == "8787"@
            &&& env.contains_key("ZCASH_SYNC_INTERVAL_SECS"@) && unsigned(env["ZCASH_SYNC_INTERVAL_SECS"@]) is Some
                && unsigned(env["ZCASH_SYNC_INTERVAL_SECS"@])->0 <= u64::MAX
                ==> settings.sync_interval_secs == unsigned(env["ZCASH_SYNC_INTERVAL_SECS"@])->0
            &&& !(env.contains_key("ZCASH_SYNC_INTERVAL_SECS"@) && unsigned(env["ZCASH_SYNC_INTERVAL_SECS"@]) is Some
                && unsigned(env["ZCASH_SYNC_INTERVAL_SECS"@])->0 <= u64::MAX)
                ==> settings.sync_interval_secs == 30
            &&& env.contains_key("ZCASH_MIN_CONFIRMATIONS"@) && unsigned(env["ZCASH_MIN_CONFIRMATIONS"@]) is Some
                && 0 < unsigned(env["ZCASH_MIN_CONFIRMATIONS"@])->0 <= u32::MAX
                ==> settings.min_confirmations == unsigned(env["ZCASH_MIN_CONFIRMATIONS"@])->0
            &&& !(env.contains_key("ZCASH_MIN_CONFIRMATIONS"@) && unsigned(env["ZCASH_MIN_CONFIRMATIONS"@]) is Some
                && 0 < unsigned(env["ZCASH_MIN_CONFIRMATIONS"@])->0 <= u32::MAX)
                ==> settings.min_confirmations == 3
        }),
{
    reveal_strlit("mainnet");
    reveal_strlit("testnet");
    assert("mainnet"@[0] != "testnet"@[0]);
}

/// The sidecar starts exactly when the endpoint can be read and the network, where one
/// is named, is a known one. An endpoint that cannot be read is reported before a
/// network that is not known, and with the reason why it cannot be read.
pub proof fn starts_exactly_when(env: Map<Seq<char>, Seq<char>>, fault: Seq<char>)
    ensures
        ({
            let endpoint = env.contains_key("LIGHTWALLETD_ENDPOINT"@);
            let known = env.contains_key("ZCASH_NETWORK"@) ==> (env["ZCASH_NETWORK"@]
                == "mainnet"@ || env["ZCASH_NETWORK"@] == "testnet"@);
            &&& settings_in(env, fault) is Ok <==> endpoint && known
            &&& settings_in(env, fault) == Err::<SettingsModel, ErrorModel>(
                ErrorModel::MissingEndpoint { cause: fault },
            ) <==> !endpoint
            &&& settings_in(env, fault) == Err::<SettingsModel, ErrorModel>(
                ErrorModel::InvalidNetwork,
            ) <==> endpoint && !known
        }),
{
}

/// Setting one variable to anything changes no setting but its own.
pub proof fn other_settings_stay(
    env: Map<Seq<char>, Seq<char>>,
    fault: Seq<char>,
    name: Seq<char>,
    value: Seq<char>,
)
    requires
        settings_in(env, fault) is Ok,
        settings_in(env.insert(name, value), fault) is Ok,
    ensures
        ({
            let before = settings_in(env, fault)->Ok_0;
            let after = settings_in(env.insert(name, value), fault)->Ok_0;
            &&& name != "LIGHTWALLETD_ENDPOINT"@ ==> after.lightwalletd_uri
                == before.lightwalletd_uri
            &&& name != "ZCASH_DATA_DIR"@ ==> after.data_dir == before.data_dir
            &&& name != "ZCASH_NETWORK"@ ==> after.chain_type == before.chain_type
            &&& name != "ZCASH_LIGHT_CLIENT_API_KEY"@ ==> after.api_key == before.api_key
            &&& name != "BIND_ADDR"@ ==> after.bind_addr == before.bind_addr
            &&& name != "PORT"@ ==> after.port == before.port
            &&& name != "ZCASH_SYNC_INTERVAL_SECS"@ ==> after.sync_interval_secs
                == before.sync_interval_secs
            &&& name != "ZCASH_MIN_CONFIRMATIONS"@ ==> after.min_confirmations
                == before.min_confirmations
        }),
{
}

/// The sidecar listens where it is told to: what comes before the colon is the
/// address, and what comes after it is the port.
pub proof fn listens_where_told(settings: SettingsModel)
    ensures
        ({
            let (text, n) = (settings.listen_text(), settings.bind_addr.len() as int);
            &&& text.len() == settings.bind_addr.len() + 1 + settings.port.len()
            &&& text.take(n) == settings.bind_addr
            &&& text[n] == ':'
            &&& text.skip(n + 1) == settings.port
        }),
{
    reveal_strlit(":");
}

/// The two networks are reported by name.
pub proof fn networks_have_their_names(chain: ChainType)
    ensures
        chain.text() == "Mainnet"@ <==> chain == ChainType::Mainnet,
        chain.text() == "Testnet"@ <==> chain == ChainType::Testnet,
{
    reveal_strlit("Mainnet");
    reveal_strlit("Testnet");
    assert("Mainnet"@[0] != "Testnet"@[0]);
}

} // verus!
