//! The governor: proposal records, per-proposal vote tallies, the has-voted
//! set, and the propose / vote / execute state machine over them.
//!
//! Each operation runs to completion against exclusively owned state; the
//! ledger's answers (current time, caller identity, treasury balance, token
//! query, transfer outcome) enter as plain parameters, and every mutation
//! happens only after all checks have passed, so a failed call leaves the
//! state untouched.

use vstd::prelude::*;

use crate::types::AccountId;
use crate::types::Balance;
use crate::types::GovernorError;
use crate::types::Proposal;
use crate::types::ProposalId;
use crate::types::TokenInfo;
use crate::types::TransferRequest;
use crate::types::VoteRecord;
use crate::types::VoteType;

verus! {

/// Fixed-point scale for vote weights: a weight is a share of the total
/// supply, expressed in hundred-thousandths of a percent.
pub const SCALE: u128 = 100_000;

/// The record a successful `propose(to, amount, duration)` call stores when
/// the clock reads `now`: the voting window is `duration` minutes long and
/// the funds are not yet released.
pub open spec fn proposal_record(to: AccountId, amount: Balance, duration: u64, now: u64) -> Proposal {
    Proposal {
        to,
        vote_start: now,
        vote_end: (now + duration * 60) as u64,
        executed: false,
        amount,
    }
}

/// The weight of one vote: the voter's share of the total supply as a
/// percentage, scaled up by `SCALE` to keep fractional precision under
/// integer division.
pub open spec fn weight_value(balance: Balance, supply: Balance) -> int
    recommends
        supply > 0,
{
    (balance * SCALE * 100) / (supply as int)
}

/// Compute a vote's weight with width-checked arithmetic: for balances
/// above `u128::MAX / (SCALE * 100)` the scaled product has no room in the
/// counter width, and that surfaces as an error instead of wrapping.
fn compute_weight(balance: Balance, supply: Balance) -> (r: Result<Balance, GovernorError>)
    requires
        supply > 0,
    ensures
        match r {
            Ok(w) => balance * SCALE * 100 <= u128::MAX && w == weight_value(balance, supply),
            Err(e) => e == GovernorError::ArithmeticOverflow && balance * SCALE * 100
                > u128::MAX,
        },
{
    let scaled = match balance.checked_mul(SCALE) {
        Some(x) => x,
        None => return Err(GovernorError::ArithmeticOverflow),
    };
    let scaled = match scaled.checked_mul(100) {
        Some(x) => x,
        None => return Err(GovernorError::ArithmeticOverflow),
    };
    Ok(scaled / supply)
}

/// Treasury governance state. All tables are owned exclusively by the
/// governor and are append/increment-only, except the one false-to-true
/// flip of a proposal's `executed` flag.
pub struct Governor {
    /// Proposal records; a proposal's identifier is its position here.
    pub proposals: Vec<Proposal>,
    /// Accumulated weight in favour, one entry per proposal.
    pub votes_for: Vec<Balance>,
    /// Accumulated weight against, one entry per proposal.
    pub votes_against: Vec<Balance>,
    /// The (proposal, voter) pairs that have voted, each at most once.
    pub voted: Vec<VoteRecord>,
    /// Minimum participation, as an integer percent of the total supply,
    /// required before a proposal may execute. Immutable.
    pub quorum: u8,
    /// Identity of the governance-token contract. Immutable.
    pub governance_token: AccountId,
}

impl Governor {
    /// The identifier the next accepted proposal will receive.
    pub open spec fn spec_next_id(self) -> nat {
        self.proposals@.len()
    }

    /// Whether `voter` has already voted on `proposal`.
    pub open spec fn spec_has_voted(self, proposal: ProposalId, voter: AccountId) -> bool {
        self.voted@.contains(VoteRecord { proposal, voter })
    }

    /// The stored proposal under `id`, if any.
    pub open spec fn spec_get_proposal(self, id: ProposalId) -> Option<Proposal> {
        if id < self.spec_next_id() {
            Some(self.proposals@[id as int])
        } else {
            None
        }
    }

    /// Well-formedness: the tallies run parallel to the proposals, their
    /// per-proposal sum fits the counter width, the vote set only names
    /// stored proposals and holds each pair at most once, every window is
    /// ordered, and the quorum is a percent.
    pub open spec fn wf(self) -> bool {
        &&& self.votes_for@.len() == self.proposals@.len()
        &&& self.votes_against@.len() == self.proposals@.len()
        &&& self.proposals@.len() <= u64::MAX
        &&& self.quorum <= 100
        &&& forall|i: int|
            0 <= i < self.proposals@.len() ==> #[trigger] self.votes_for@[i] + self.votes_against@[i]
                <= u128::MAX
        &&& forall|i: int|
            0 <= i < self.proposals@.len() ==> (#[trigger] self.proposals@[i]).vote_start
                <= self.proposals@[i].vote_end
        &&& forall|i: int|
            0 <= i < self.proposals@.len() ==> (#[trigger] self.proposals@[i]).amount > 0
        &&& forall|i: int|
            0 <= i < self.voted@.len() ==> (#[trigger] self.voted@[i]).proposal
                < self.proposals@.len()
        &&& forall|i: int, j: int|
            0 <= i < j < self.voted@.len() ==> self.voted@[i] != self.voted@[j]
    }

    /// Everything except the tables' contents that must survive any call.
    pub open spec fn same_config(self, other: Governor) -> bool {
        &&& self.quorum == other.quorum
        &&& self.governance_token == other.governance_token
    }

    /// No observable difference at all.
    pub open spec fn same_state(self, other: Governor) -> bool {
        &&& self.proposals@ == other.proposals@
        &&& self.votes_for@ == other.votes_for@
        &&& self.votes_against@ == other.votes_against@
        &&& self.voted@ == other.voted@
        &&& self.same_config(other)
    }

    /// A fresh governor bound to its token contract and quorum, with no
    /// proposals and no votes.
    pub fn new(governance_token: AccountId, quorum: u8) -> (g: Governor)
        requires
            quorum <= 100,
        ensures
            g.wf(),
            g.proposals@ == Seq::<Proposal>::empty(),
            g.votes_for@ == Seq::<Balance>::empty(),
            g.votes_against@ == Seq::<Balance>::empty(),
            g.voted@ == Seq::<VoteRecord>::empty(),
            g.quorum == quorum,
            g.governance_token == governance_token,
    {
        Governor {
            proposals: Vec::new(),
            votes_for: Vec::new(),
            votes_against: Vec::new(),
            voted: Vec::new(),
            quorum,
            governance_token,
        }
    }

    /// The result `propose` owes for these inputs: `Ok` exactly when the
    /// amount and duration are nonzero and neither the identifier counter
    /// nor the window end would leave its width.
    pub open spec fn propose_outcome(self, amount: Balance, duration: u64, now: u64) -> Result<
        (),
        GovernorError,
    > {
        if amount == 0 {
            Err(GovernorError::AmountShouldNotBeZero)
        } else if duration == 0 {
            Err(GovernorError::DurationError)
        } else if self.spec_next_id() == u64::MAX || now + duration * 60 > u64::MAX {
            Err(GovernorError::ArithmeticOverflow)
        } else {
            Ok(())
        }
    }

    /// Create a funding proposal. On success it is stored under the prior
    /// `next_proposal_id`, with a voting window of `duration` minutes from
    /// `now` and zeroed tallies, and the counter grows by exactly 1; any
    /// failure leaves the state untouched.
    pub fn propose(
        &mut self,
        to: AccountId,
        amount: Balance,
        duration: u64,
        now: u64,
    ) -> (r: Result<(), GovernorError>)
        requires
            old(self).wf(),
        ensures
            final(self).wf(),
            r == old(self).propose_outcome(amount, duration, now),
            r is Ok ==> final(self).proposals@ == old(self).proposals@.push(
                proposal_record(to, amount, duration, now),
            ),
            r is Ok ==> final(self).votes_for@ == old(self).votes_for@.push(0u128),
            r is Ok ==> final(self).votes_against@ == old(self).votes_against@.push(0u128),
            r is Ok ==> final(self).voted@ == old(self).voted@,
            r is Err ==> final(self).same_state(*old(self)),
            final(self).same_config(*old(self)),
    {
        if amount == 0 {
            return Err(GovernorError::AmountShouldNotBeZero);
        }
        if duration == 0 {
            return Err(GovernorError::DurationError);
        }
        if self.proposals.len() as u64 == u64::MAX {
            return Err(GovernorError::ArithmeticOverflow);
        }
        let window = match duration.checked_mul(60) {
            Some(w) => w,
            None => return Err(GovernorError::ArithmeticOverflow),
        };
        let vote_end = match now.checked_add(window) {
            Some(t) => t,
            None => return Err(GovernorError::ArithmeticOverflow),
        };
        let proposal = Proposal { to, vote_start: now, vote_end, executed: false, amount };
        self.proposals.push(proposal);
        self.votes_for.push(0);
        self.votes_against.push(0);
        Ok(())
    }

    /// The result `vote` owes for these inputs, with the eligibility checks
    /// in their fixed order: the proposal must exist, not be executed, its
    /// window must still be open, the caller must not have voted on it, the
    /// token query must have answered with a nonzero supply (a zero supply
    /// counts as a failed query, never as a division by zero), and the
    /// weight and tally arithmetic must stay within the counter width.
    pub open spec fn vote_outcome(
        self,
        proposal_id: ProposalId,
        caller: AccountId,
        now: u64,
        token: Option<TokenInfo>,
    ) -> Result<(), GovernorError> {
        if proposal_id >= self.spec_next_id() {
            Err(GovernorError::ProposalNotFound)
        } else if self.proposals@[proposal_id as int].executed {
            Err(GovernorError::ProposalAlreadyExecuted)
        } else if now > self.proposals@[proposal_id as int].vote_end {
            Err(GovernorError::VotePeriodEnded)
        } else if self.spec_has_voted(proposal_id, caller) {
            Err(GovernorError::AlreadyVoted)
        } else {
            match token {
                None => Err(GovernorError::CallToTokenFailed),
                Some(t) => {
                    if t.total_supply == 0 {
                        Err(GovernorError::CallToTokenFailed)
                    } else if t.caller_balance * SCALE * 100 > u128::MAX {
                        Err(GovernorError::ArithmeticOverflow)
                    } else if self.votes_for@[proposal_id as int] + self.votes_against@[
                        proposal_id as int
                    ] + weight_value(t.caller_balance, t.total_supply) > u128::MAX {
                        Err(GovernorError::ArithmeticOverflow)
                    } else {
                        Ok(())
                    }
                },
            }
        }
    }

    /// Cast a token-weighted vote on a proposal. The caller's identity, the
    /// current time and the token contract's answer (`None` when the query
    /// failed) come from the ledger. On success the (proposal, caller) pair
    /// is recorded and the chosen tally grows by the caller's weight, both
    /// together; any failure leaves the state untouched.
    pub fn vote(
        &mut self,
        proposal_id: ProposalId,
        choice: VoteType,
        caller: AccountId,
        now: u64,
        token: Option<TokenInfo>,
    ) -> (r: Result<(), GovernorError>)
        requires
            old(self).wf(),
        ensures
            final(self).wf(),
            r == old(self).vote_outcome(proposal_id, caller, now, token),
            r is Ok ==> (token matches Some(t) ==> {
                let w = weight_value(t.caller_balance, t.total_supply);
                &&& final(self).voted@ == old(self).voted@.push(
                    VoteRecord { proposal: proposal_id, voter: caller },
                )
                &&& final(self).proposals@ == old(self).proposals@
                &&& (choice == VoteType::For ==> {
                    &&& final(self).votes_for@ == old(self).votes_for@.update(
                        proposal_id as int,
                        (old(self).votes_for@[proposal_id as int] + w) as u128,
                    )
                    &&& final(self).votes_against@ == old(self).votes_against@
                })
                &&& (choice == VoteType::Against ==> {
                    &&& final(self).votes_against@ == old(self).votes_against@.update(
                        proposal_id as int,
                        (old(self).votes_against@[proposal_id as int] + w) as u128,
                    )
                    &&& final(self).votes_for@ == old(self).votes_for@
                })
            }),
            r is Err ==> final(self).same_state(*old(self)),
            final(self).same_config(*old(self)),
    {
        if proposal_id >= self.proposals.len() as u64 {
            return Err(GovernorError::ProposalNotFound);
        }
        let idx = proposal_id as usize;
        let proposal = self.proposals[idx];
        if proposal.executed {
            return Err(GovernorError::ProposalAlreadyExecuted);
        }
        if now > proposal.vote_end {
            return Err(GovernorError::VotePeriodEnded);
        }
        if self.find_vote(proposal_id, caller) {
            return Err(GovernorError::AlreadyVoted);
        }
        let tok = match token {
            Some(t) => t,
            None => return Err(GovernorError::CallToTokenFailed),
        };
        if tok.total_supply == 0 {
            return Err(GovernorError::CallToTokenFailed);
        }
        let weight = match compute_weight(tok.caller_balance, tok.total_supply) {
            Ok(w) => w,
            Err(e) => return Err(e),
        };
        let vote_for = self.votes_for[idx];
        let vote_against = self.votes_against[idx];
        if (vote_for + vote_against).checked_add(weight).is_none() {
            return Err(GovernorError::ArithmeticOverflow);
        }
        self.voted.push(VoteRecord { proposal: proposal_id, voter: caller });
        match choice {
            VoteType::For => {
                self.votes_for.set(idx, vote_for + weight);
            },
            VoteType::Against => {
                self.votes_against.set(idx, vote_against + weight);
            },
        }
        Ok(())
    }

    /// Whether `voter` has already voted on `proposal`: a linear scan of
    /// the recorded pairs.
    fn find_vote(&self, proposal: ProposalId, voter: AccountId) -> (b: bool)
        ensures
            b == self.spec_has_voted(proposal, voter),
    {
        let mut i: usize = 0;
        while i < self.voted.len()
            invariant
                i <= self.voted@.len(),
                forall|j: int| 0 <= j < i ==> self.voted@[j] != (VoteRecord { proposal, voter }),
            decreases self.voted@.len() - i,
        {
            if self.voted[i] == (VoteRecord { proposal, voter }) {
                proof {
                    assert(self.voted@[i as int] == (VoteRecord { proposal, voter }));
                }
                return true;
            }
            i += 1;
        }
        false
    }

    /// Participation on a proposal: the summed tallies scaled back down,
    /// approximating the percent of the supply that voted. The formula is
    /// kept exactly as the governance rules fix it.
    pub open spec fn participation(self, proposal_id: ProposalId) -> int
        recommends
            proposal_id < self.spec_next_id(),
    {
        (self.votes_for@[proposal_id as int] + self.votes_against@[proposal_id as int]) / (
        SCALE as int)
    }

    /// The verdict `execute` owes before any funds may move, with the
    /// checks in their fixed order: the proposal must exist and not be
    /// executed, participation must reach the quorum, the weight in favour
    /// must not be outweighed (a tie passes), and the treasury must cover
    /// the amount. `Ok` carries the one transfer the ledger is asked for.
    /// The voting window is deliberately not consulted: a proposal that is
    /// already decisive may execute while voting is still open.
    pub open spec fn execute_checks(self, proposal_id: ProposalId, contract_balance: Balance) -> Result<
        TransferRequest,
        GovernorError,
    > {
        if proposal_id >= self.spec_next_id() {
            Err(GovernorError::ProposalNotFound)
        } else if self.proposals@[proposal_id as int].executed {
            Err(GovernorError::ProposalAlreadyExecuted)
        } else if self.quorum as int > self.participation(proposal_id) {
            Err(GovernorError::QuorumNotReached)
        } else if self.votes_against@[proposal_id as int] > self.votes_for@[proposal_id as int] {
            Err(GovernorError::ProposalNotAccepted)
        } else if self.proposals@[proposal_id as int].amount > contract_balance {
            Err(GovernorError::AmountExceedContractBalance)
        } else {
            Ok(
                TransferRequest {
                    to: self.proposals@[proposal_id as int].to,
                    amount: self.proposals@[proposal_id as int].amount,
                },
            )
        }
    }

    /// Run `execute`'s checks without touching the state: `Ok` names the
    /// transfer the ledger must now perform, whose outcome is then handed
    /// to `execute`. `contract_balance` is the treasury balance the ledger
    /// reports. A pure read.
    pub fn prepare_execute(&self, proposal_id: ProposalId, contract_balance: Balance) -> (r:
        Result<TransferRequest, GovernorError>)
        requires
            self.wf(),
        ensures
            r == self.execute_checks(proposal_id, contract_balance),
    {
        if proposal_id >= self.proposals.len() as u64 {
            return Err(GovernorError::ProposalNotFound);
        }
        let idx = proposal_id as usize;
        let proposal = self.proposals[idx];
        if proposal.executed {
            return Err(GovernorError::ProposalAlreadyExecuted);
        }
        let vote_sum = self.votes_for[idx] + self.votes_against[idx];
        if (self.quorum as u128) > vote_sum / SCALE {
            return Err(GovernorError::QuorumNotReached);
        }
        if self.votes_against[idx] > self.votes_for[idx] {
            return Err(GovernorError::ProposalNotAccepted);
        }
        if proposal.amount > contract_balance {
            return Err(GovernorError::AmountExceedContractBalance);
        }
        Ok(TransferRequest { to: proposal.to, amount: proposal.amount })
    }

    /// Release a proposal's funds. The caller first obtains the transfer
    /// from `prepare_execute`, asks the ledger to perform it, and hands the
    /// outcome in as `transfer_ok`; the checks are re-run here unchanged.
    /// Only when every check passes and the transfer succeeded does the
    /// proposal flip to executed — once, and only its flag changes. A
    /// failed transfer leaves it retryable; any failure leaves the state
    /// untouched.
    pub fn execute(
        &mut self,
        proposal_id: ProposalId,
        contract_balance: Balance,
        transfer_ok: bool,
    ) -> (r: Result<(), GovernorError>)
        requires
            old(self).wf(),
        ensures
            final(self).wf(),
            match old(self).execute_checks(proposal_id, contract_balance) {
                Err(e) => r == Err::<(), GovernorError>(e) && final(self).same_state(*old(self)),
                Ok(req) => if transfer_ok {
                    &&& r == Ok::<(), GovernorError>(())
                    &&& final(self).proposals@ == old(self).proposals@.update(
                        proposal_id as int,
                        (Proposal {
                            executed: true,
                            ..old(self).proposals@[proposal_id as int]
                        }),
                    )
                    &&& final(self).votes_for@ == old(self).votes_for@
                    &&& final(self).votes_against@ == old(self).votes_against@
                    &&& final(self).voted@ == old(self).voted@
                } else {
                    r == Err::<(), GovernorError>(GovernorError::TransferFailed)
                        && final(self).same_state(*old(self))
                },
            },
            final(self).same_config(*old(self)),
    {
        if let Err(e) = self.prepare_execute(proposal_id, contract_balance) {
            return Err(e);
        }
        if !transfer_ok {
            return Err(GovernorError::TransferFailed);
        }
        // Reading the length pins the table within the machine's index
        // width, so the identifier below is known to fit in usize.
        let _len: usize = self.proposals.len();
        let idx = proposal_id as usize;
        let mut proposal = self.proposals[idx];
        proposal.executed = true;
        self.proposals.set(idx, proposal);
        Ok(())
    }

    /// The identifier the next accepted proposal will receive; also the
    /// number of proposals stored so far.
    pub fn next_proposal_id(&self) -> (id: ProposalId)
        requires
            self.wf(),
        ensures
            id == self.spec_next_id(),
    {
        self.proposals.len() as u64
    }

    /// The stored proposal under `id`; absence is a valid outcome, not a
    /// failure. A pure read.
    pub fn get_proposal(&self, id: ProposalId) -> (r: Option<Proposal>)
        requires
            self.wf(),
        ensures
            r == self.spec_get_proposal(id),
    {
        if id >= self.proposals.len() as u64 {
            return None;
        }
        Some(self.proposals[id as usize])
    }
}

} // verus!
