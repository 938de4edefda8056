//! Messages and commands. A message is a tagged value carrying user
//! input or an effect's outcome, consumed by the current step's
//! `update`. A command describes a deferred effect for the hosting
//! shell to perform; no command blocks the orchestrator.

use vstd::prelude::*;

verus! {

/// Why a connectivity probe against the node failed.
pub enum ProbeError {
    /// The credential file could not be read.
    FileRead(String),
    /// The transport to the node could not be built or used.
    Transport(String),
    /// The node answered the health check with an RPC error.
    Rpc(String),
}

impl Clone for ProbeError {
    fn clone(&self) -> (r: Self)
        ensures
            r == *self,
    {
        match self {
            ProbeError::FileRead(s) => ProbeError::FileRead(s.clone()),
            ProbeError::Transport(s) => ProbeError::Transport(s.clone()),
            ProbeError::Rpc(s) => ProbeError::Rpc(s.clone()),
        }
    }
}

/// Messages addressed to the node-connection step.
pub enum DefineBitcoind {
    /// The user asked for a connectivity probe.
    PingBitcoind,
    /// A probe finished with this outcome.
    PingBitcoindResult(Result<(), ProbeError>),
    /// The user edited the address field.
    AddressEdited(String),
    /// The user edited the credential-path field.
    CookiePathEdited(String),
}

/// A tagged value consumed by the current step's `update`; steps ignore
/// messages addressed to another step.
pub enum Message {
    /// For the node-connection step.
    DefineBitcoind(DefineBitcoind),
    /// The user asked the finalization step to write the configuration.
    Install,
    /// The configuration write finished: the written location, or an
    /// error text.
    Installed(Result<String, String>),
}

/// A description of a deferred effect bound to the step that asked for
/// it; the hosting shell performs it and answers with a message.
pub enum Cmd {
    /// No deferred effect.
    NoOp,
    /// Read the credential file at `cookie_path`, then issue the
    /// health-check call against `address`; answer with
    /// `DefineBitcoind::PingBitcoindResult`.
    Probe { cookie_path: String, address: String },
}

} // verus!
