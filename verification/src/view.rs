//! What a step hands the rendering collaborator: the step's displayable
//! state as plain values, plus the wizard's progress. The core never
//! inspects what the collaborator draws from it.

use vstd::prelude::*;

use crate::context::Network;
use crate::form::FormValue;
use crate::message::ProbeError;

verus! {

/// One screen's displayable state.
pub enum Screen {
    /// The greeting screen.
    Welcome,
    /// The node-connection screen: both fields with their validity
    /// flags, and the outcome of the last probe, if one finished.
    DefineBitcoind {
        cookie_path: FormValue,
        address: FormValue,
        is_running: Option<Result<(), ProbeError>>,
    },
    /// The finalization screen.
    Final {
        network: Network,
        descriptor: String,
        generating: bool,
        warning: Option<String>,
        config_path: Option<String>,
        /// The identity to display as the hot signer, or `None` with a
        /// warning that the generated key went unused.
        hot_signer: Option<String>,
    },
}

/// A renderable description: the current screen and the wizard's
/// position for the progress indicator.
pub struct ViewModel {
    pub current: usize,
    pub total: usize,
    pub screen: Screen,
}

} // verus!
