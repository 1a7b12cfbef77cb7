//! On-chain treasury governance: token holders create funding proposals,
//! cast token-weighted votes, and, once quorum and majority hold, trigger a
//! one-time transfer of pooled funds to a recipient.
//!
//! The ledger runtime (clock, caller identity, contract balance, value
//! transfer) and the governance-token contract (balances, total supply) are
//! external collaborators: each operation takes their answers as plain
//! values, and the verified state machine decides everything else.

pub mod governor;
pub mod laws;
pub mod types;
