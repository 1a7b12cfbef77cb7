//! Plain data carried through the governance state machine.

use vstd::prelude::*;

verus! {

/// Identifier of a proposal: assigned from a counter that starts at 0 and
/// grows by exactly 1 per accepted proposal, never reused.
pub type ProposalId = u64;

/// Token and treasury amounts.
pub type Balance = u128;

/// An account on the ledger, reduced to a plain numeric identity.
#[derive(Clone, Copy, PartialEq, Eq, Structural, Debug)]
pub struct AccountId {
    pub id: u128,
}

/// The direction of a cast vote.
#[derive(Clone, Copy, PartialEq, Eq, Structural, Debug)]
pub enum VoteType {
    For,
    Against,
}

/// Every failure of the governor, returned as a value, never panicked.
#[derive(Clone, Copy, PartialEq, Eq, Structural, Debug)]
pub enum GovernorError {
    AmountShouldNotBeZero,
    DurationError,
    ProposalNotFound,
    ProposalAlreadyExecuted,
    VotePeriodEnded,
    AlreadyVoted,
    QuorumNotReached,
    ProposalNotAccepted,
    TransferFailed,
    AmountExceedContractBalance,
    CallToTokenFailed,
    /// A sum or product left the width of its counter, which the machine
    /// cannot represent; nothing is mutated and the caller may retry with
    /// smaller values.
    ArithmeticOverflow,
}

/// A funding request with a bounded voting window.
#[derive(Clone, Copy, PartialEq, Eq, Structural, Debug)]
pub struct Proposal {
    /// Recipient of the funds.
    pub to: AccountId,
    /// Time the voting window opened (seconds).
    pub vote_start: u64,
    /// Last instant at which votes are accepted (seconds).
    pub vote_end: u64,
    /// Whether the funds were already released; flips false to true once.
    pub executed: bool,
    /// Funds to release, always nonzero.
    pub amount: Balance,
}

/// One recorded (proposal, voter) pair: the voter has voted on the proposal.
#[derive(Clone, Copy, PartialEq, Eq, Structural, Debug)]
pub struct VoteRecord {
    pub proposal: ProposalId,
    pub voter: AccountId,
}

/// The governance token's answer to a balance-and-supply query, as the
/// ledger hands it in.
#[derive(Clone, Copy, PartialEq, Eq, Structural, Debug)]
pub struct TokenInfo {
    /// Balance of the voting account.
    pub caller_balance: Balance,
    /// Total supply of the governance token.
    pub total_supply: Balance,
}

/// The one action `execute` may demand of the ledger: transfer `amount`
/// from the treasury to `to`.
#[derive(Clone, Copy, PartialEq, Eq, Structural, Debug)]
pub struct TransferRequest {
    pub to: AccountId,
    pub amount: Balance,
}

} // verus!
