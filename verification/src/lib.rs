//! An authenticated risk-score registry: a single administrator, fixed at
//! initialization, records an 8-bit risk score per validator identifier;
//! any caller may read a score, with absence reading as zero.

mod laws;
mod registry;

pub use laws::lemma_fresh_reads_zero;
pub use laws::lemma_last_write_wins;
pub use laws::lemma_uninitialized_rejects;
pub use laws::lemma_unwritten_reads_zero;
pub use laws::lemma_update_frames_others;
pub use laws::lemma_update_idempotent;
pub use laws::lemma_update_then_read;
pub use registry::update_applied;
pub use registry::Address;
pub use registry::Error;
pub use registry::RiskOracle;
