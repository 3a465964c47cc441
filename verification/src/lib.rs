//! Submission and resilience core for an unattended ledger-migration agent.
//!
//! The library holds the decision logic of the agent: classifying failures
//! into a closed taxonomy, decoding binary validity rejections, guarding the
//! operator's balance, resolving per-operation limits, and the state machines
//! that drive one submission attempt and the surrounding control loop. All
//! network I/O stays with the caller; the functions here map plain values to
//! plain values and carry contracts that pin their results down.

pub mod control;
pub mod error;
pub mod hexcodec;
pub mod limits;
pub mod pipeline;
pub mod safety;
pub mod seed;
pub mod settings;
pub mod status;
pub mod text;
pub mod txhash;
pub mod validity;

pub use text::contains_sub;
