//! What `GET /health` and `GET /sync-height` report.

use vstd::prelude::*;

use crate::settings::ChainType;

verus! {

/// What a sync of the wallet is doing.
#[derive(Clone, Copy, Debug, PartialEq, Eq, Structural)]
pub enum SyncMode {
    NotRunning,
    Paused,
    Running,
    Shutdown,
}

impl SyncMode {
    /// The mode as it is reported.
    pub open spec fn text(self) -> Seq<char> {
        match self {
            SyncMode::NotRunning => "NotRunning"@,
            SyncMode::Paused => "Paused"@,
            SyncMode::Running => "Running"@,
            SyncMode::Shutdown => "Shutdown"@,
        }
    }

    /// The mode as it is reported.
    pub fn name(&self) -> (name: &'static str)
        ensures
            name@ == self.text(),
    {
        match self {
            SyncMode::NotRunning => "NotRunning",
            SyncMode::Paused => "Paused",
            SyncMode::Running => "Running",
            SyncMode::Shutdown => "Shutdown",
        }
    }
}

/// The answer to `GET /health`.
#[derive(Debug)]
pub struct HealthResponse {
    pub status: &'static str,
    pub network: String,
    pub lightwalletd: String,
    pub sync_mode: String,
    pub wallet_height: Option<u64>,
    pub fully_scanned_height: Option<u64>,
    pub last_sync_error: Option<String>,
}

/// The answer to `GET /sync-height`.
#[derive(Debug)]
pub struct SyncHeightResponse {
    pub wallet_height: Option<u64>,
    pub fully_scanned_height: Option<u64>,
    pub latest_height: Option<u64>,
    pub sync_mode: String,
}

/// A height that may be unknown, as it is reported.
pub open spec fn reported_height(height: Option<u32>) -> Option<u64> {
    match height {
        Some(h) => Some(h as u64),
        None => None,
    }
}

/// Widens a block height.
pub fn block_height_to_u64(height: u32) -> (wide: u64)
    ensures
        wide == height,
{
    height as u64
}

/// Widens a block height that may be unknown.
fn height_to_u64(height: Option<u32>) -> (wide: Option<u64>)
    ensures
        wide == reported_height(height),
{
    match height {
        Some(height) => Some(block_height_to_u64(height)),
        None => None,
    }
}

/// Answers `GET /health`. `lightwalletd` is the server that the wallet talks to.
pub fn health(
    chain_type: ChainType,
    lightwalletd: String,
    sync_mode: SyncMode,
    wallet_height: Option<u32>,
    fully_scanned_height: Option<u32>,
    last_sync_error: Option<String>,
) -> (response: HealthResponse)
    ensures
        response.status@ == "ok"@,
        response.network@ == chain_type.text(),
        response.lightwalletd@ == lightwalletd@,
        response.sync_mode@ == sync_mode.text(),
        response.wallet_height == reported_height(wallet_height),
        response.fully_scanned_height == reported_height(fully_scanned_height),
        response.last_sync_error.deep_view() == last_sync_error.deep_view(),
        chain_type == ChainType::Mainnet ==> response.network@ == "Mainnet"@,
        chain_type == ChainType::Testnet ==> response.network@ == "Testnet"@,
        sync_mode == SyncMode::NotRunning ==> response.sync_mode@ == "NotRunning"@,
        sync_mode == SyncMode::Paused ==> response.sync_mode@ == "Paused"@,
        sync_mode == SyncMode::Running ==> response.sync_mode@ == "Running"@,
        sync_mode == SyncMode::Shutdown ==> response.sync_mode@ == "Shutdown"@,
        response.wallet_height is Some <==> wallet_height is Some,
        wallet_height is Some ==> response.wallet_height->0 == wallet_height->0,
        response.fully_scanned_height is Some <==> fully_scanned_height is Some,
        fully_scanned_height is Some ==> response.fully_scanned_height->0 == fully_scanned_height->0,
{
    HealthResponse {
        status: "ok",
        network: chain_type.name().to_string(),
        lightwalletd,
        sync_mode: sync_mode.name().to_string(),
        wallet_height: height_to_u64(wallet_height),
        fully_scanned_height: height_to_u64(fully_scanned_height),
        last_sync_error,
    }
}

/// Answers `GET /sync-height`. The latest height is the highest block that the
/// wallet knows of.
pub fn sync_height(
    wallet_height: Option<u32>,
    fully_scanned_height: Option<u32>,
    sync_mode: SyncMode,
) -> (response: SyncHeightResponse)
    ensures
        response.wallet_height == reported_height(wallet_height),
        response.fully_scanned_height == reported_height(fully_scanned_height),
        response.latest_height == reported_height(wallet_height),
        response.sync_mode@ == sync_mode.text(),
        sync_mode == SyncMode::NotRunning ==> response.sync_mode@ == "NotRunning"@,
        sync_mode == SyncMode::Paused ==> response.sync_mode@ == "Paused"@,
        sync_mode == SyncMode::Running ==> response.sync_mode@ == "Running"@,
        sync_mode == SyncMode::Shutdown ==> response.sync_mode@ == "Shutdown"@,
        response.wallet_height is Some <==> wallet_height is Some,
        wallet_height is Some ==> response.wallet_height->0 == wallet_height->0,
        response.fully_scanned_height is Some <==> fully_scanned_height is Some,
        fully_scanned_height is Some ==> response.fully_scanned_height->0 == fully_scanned_height->0,
        response.latest_height is Some <==> wallet_height is Some,
        wallet_height is Some ==> response.latest_height->0 == wallet_height->0,
{
    SyncHeightResponse {
        wallet_height: height_to_u64(wallet_height),
        fully_scanned_height: height_to_u64(fully_scanned_height),
        latest_height: height_to_u64(wallet_height),
        sync_mode: sync_mode.name().to_string(),
    }
}

/// A height is reported exactly when it is known, and as it is.
pub proof fn heights_are_reported_as_they_are(height: Option<u32>)
    ensures
        reported_height(height) is Some <==> height is Some,
        height is Some ==> reported_height(height)->0 == height->0,
{
}

/// Each mode of the sync is reported by its name, and no two by the same.
pub proof fn modes_have_their_names(a: SyncMode, b: SyncMode)
    ensures
        a.text() == b.text() ==> a == b,
        a == SyncMode::NotRunning ==> a.text() == "NotRunning"@,
        a == SyncMode::Paused ==> a.text() == "Paused"@,
        a == SyncMode::Running ==> a.text() == "Running"@,
        a == SyncMode::Shutdown ==> a.text() == "Shutdown"@,
{
    reveal_strlit("NotRunning");
    reveal_strlit("Paused");
    reveal_strlit("Running");
    reveal_strlit("Shutdown");
    assert("Paused"@.len() == 6);
    assert("Running"@.len() == 7);
    assert("Shutdown"@.len() == 8);
}

} // verus!
