//! The shared configuration record that the wizard accumulates: each
//! step reads it on entry and exactly one step commits each field.

use vstd::prelude::*;

use crate::addr::valid_socket_addr;
use crate::paths::valid_cookie_path;

verus! {

/// The Bitcoin network a wallet installation is configured for.
#[derive(Clone, Copy, PartialEq, Eq, Structural, Debug)]
pub enum Network {
    Mainnet,
    Testnet,
    Regtest,
    Signet,
}

/// Connection settings for the wallet's node, committed by the
/// node-connection step.
pub struct BitcoindConfig {
    pub cookie_path: String,
    pub addr: String,
}

impl BitcoindConfig {
    /// Both fields passed their validators when the record was committed.
    pub open spec fn wf(&self) -> bool {
        valid_cookie_path(self.cookie_path@) && valid_socket_addr(self.addr@)
    }
}

impl Clone for BitcoindConfig {
    fn clone(&self) -> (r: Self)
        ensures
            r == *self,
    {
        BitcoindConfig { cookie_path: self.cookie_path.clone(), addr: self.addr.clone() }
    }
}

/// The record shared between steps. Fields are populated monotonically:
/// a field is set by the `apply` of the step that owns it and cleared
/// only by re-applying that step.
pub struct Context {
    /// Selected by an upstream collaborator before the wizard runs.
    pub network: Network,
    /// Present once the node-connection step has been applied.
    pub bitcoind_config: Option<BitcoindConfig>,
    /// Present once a descriptor step has been applied.
    pub descriptor: Option<String>,
    /// Present only on a recovery path.
    pub recovered_signer: Option<String>,
}

impl Context {
    /// A fresh context for `network`, before any step has been applied.
    pub fn new(network: Network) -> (r: Context)
        ensures
            r.network == network,
            r.bitcoind_config is None,
            r.descriptor is None,
            r.recovered_signer is None,
    {
        Context { network, bitcoind_config: None, descriptor: None, recovered_signer: None }
    }
}

impl Clone for Context {
    fn clone(&self) -> (r: Self)
        ensures
            r == *self,
    {
        let bitcoind_config = match &self.bitcoind_config {
            Some(c) => Some(c.clone()),
            None => None,
        };
        let descriptor = match &self.descriptor {
            Some(d) => Some(d.clone()),
            None => None,
        };
        let recovered_signer = match &self.recovered_signer {
            Some(s) => Some(s.clone()),
            None => None,
        };
        Context { network: self.network, bitcoind_config, descriptor, recovered_signer }
    }
}

/// The two contexts agree on every field but the node connection: what
/// the node-connection step is allowed to change.
pub open spec fn same_but_bitcoind(a: Context, b: Context) -> bool {
    &&& a.network == b.network
    &&& a.descriptor == b.descriptor
    &&& a.recovered_signer == b.recovered_signer
}

} // verus!
