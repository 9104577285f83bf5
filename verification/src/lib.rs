//! Escrowed-payment state machine for outsourced jobs.
//!
//! A buyer funds a fixed reward for a job, an operator submits a result, and
//! the reward is released through one of two terminal paths: direct approval
//! by the buyer, or a dispute resolved by the operations authority. Every
//! terminal path runs through the settlement engine, which splits a requested
//! payout into an operator share, a platform fee, and a buyer refund that
//! together always equal the original reward.
//!
//! The library is the platform-independent core: the job record, its status
//! machine, the authorization rules of each operation, and the settlement
//! arithmetic. Reading the clock, verifying signatures, persisting records and
//! moving value between balances belong to the hosting runtime; each operation
//! here takes the sampled time and the caller's verified identity as plain
//! arguments and reports the value movements it requires as plain amounts.

pub mod errors;
pub mod events;
pub mod identity;
pub mod lifecycle;
pub mod settlement;
pub mod state;

pub use identity::Identity;
