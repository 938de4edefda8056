//! The orchestration engine of a multi-step wallet setup wizard:
//! independent, stateful configuration screens composed into a linear,
//! resumable pipeline, threaded together by a shared context that each
//! step reads on entry and exactly one step commits into.

pub mod addr;
pub mod bitcoind;
pub mod context;
pub mod finalize;
pub mod form;
pub mod laws;
pub mod message;
pub mod paths;
pub mod step;
pub mod text;
pub mod view;
pub mod wizard;
