//! Daemon configuration sections.
//!
//! All tunables are `Option<T>` so that a caller relying on a default value
//! (which may change over time) can be distinguished from one that explicitly
//! configured the current default (which should be preserved).

use vstd::prelude::*;

verus! {

/// Wallet daemon configuration.
#[derive(Clone, Debug)]
pub struct ZalletConfig {
    /// Whether the wallet should broadcast transactions.
    pub broadcast: Option<bool>,

    /// Directory to be used when exporting data.
    pub export_dir: Option<String>,

    /// Command to execute when a wallet transaction changes.
    pub notify: Option<String>,

    /// Whether generation of new spending keys and addresses from the
    /// mnemonic seed requires a confirmed backup of that seed.
    pub require_backup: Option<bool>,

    /// Settings that affect transactions created by the wallet.
    pub builder: BuilderSection,

    /// Configurable limits on wallet operation.
    pub limits: LimitsSection,

    /// JSON-RPC server settings.
    pub rpc: RpcSection,
}

impl ZalletConfig {
    /// Whether the wallet should broadcast transactions.
    ///
    /// Default is `true`.
    pub fn broadcast(&self) -> (r: bool)
        ensures
            r == match self.broadcast {
                Some(b) => b,
                None => true,
            },
    {
        match self.broadcast {
            Some(b) => b,
            None => true,
        }
    }

    /// Whether to require a confirmed wallet backup before generating new
    /// spending keys and addresses from the mnemonic seed.
    ///
    /// Default is `true`.
    pub fn require_backup(&self) -> (r: bool)
        ensures
            r == match self.require_backup {
                Some(b) => b,
                None => true,
            },
    {
        match self.require_backup {
            Some(b) => b,
            None => true,
        }
    }
}

/// Transaction builder configuration section.
#[derive(Clone, Debug)]
pub struct BuilderSection {
    /// Whether to spend unconfirmed transparent change when sending
    /// transactions.
    ///
    /// Does not affect unconfirmed shielded change, which cannot be spent.
    pub spend_zeroconf_change: Option<bool>,

    /// The number of blocks after which a transaction created by the wallet
    /// that has not been mined becomes invalid.
    pub tx_expiry_delta: Option<u16>,
}

impl BuilderSection {
    /// Whether to spend unconfirmed transparent change when sending
    /// transactions.
    ///
    /// Default is `true`.
    pub fn spend_zeroconf_change(&self) -> (r: bool)
        ensures
            r == match self.spend_zeroconf_change {
                Some(b) => b,
                None => true,
            },
    {
        match self.spend_zeroconf_change {
            Some(b) => b,
            None => true,
        }
    }

    /// The number of blocks after which a transaction created by the wallet
    /// that has not been mined becomes invalid.
    ///
    /// Default is 40.
    pub fn tx_expiry_delta(&self) -> (r: u16)
        ensures
            r == match self.tx_expiry_delta {
                Some(d) => d,
                None => 40u16,
            },
    {
        match self.tx_expiry_delta {
            Some(d) => d,
            None => 40,
        }
    }
}

/// Limits configuration section.
#[derive(Clone, Debug)]
pub struct LimitsSection {
    /// The maximum number of Orchard actions permitted in a constructed
    /// transaction.
    pub orchard_actions: Option<u16>,
}

impl LimitsSection {
    /// The maximum number of Orchard actions permitted in a constructed
    /// transaction.
    ///
    /// Default is 50.
    pub fn orchard_actions(&self) -> (r: u16)
        ensures
            r == match self.orchard_actions {
                Some(n) => n,
                None => 50u16,
            },
    {
        match self.orchard_actions {
            Some(n) => n,
            None => 50,
        }
    }
}

/// JSON-RPC server configuration section.
///
/// The RPC server is disabled by default; it is enabled by listing at least
/// one listen address in `bind`.
#[derive(Clone, Debug)]
pub struct RpcSection {
    /// Addresses to listen on for JSON-RPC connections, in `host:port` form.
    pub bind: Vec<String>,

    /// Timeout (in seconds) during HTTP requests.
    pub timeout: Option<u64>,
}

impl RpcSection {
    /// Timeout in seconds during HTTP requests.
    ///
    /// Default is 30 seconds.
    pub fn timeout(&self) -> (r: u64)
        ensures
            r == match self.timeout {
                Some(t) => t,
                None => 30u64,
            },
    {
        match self.timeout {
            Some(t) => t,
            None => 30,
        }
    }
}

} // verus!
