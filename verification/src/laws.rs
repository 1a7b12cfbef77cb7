//! The governance guarantees that span more than one operation, each stated
//! over the same spec functions the operations' contracts use and proved for
//! every state and input its hypotheses allow.

use vstd::prelude::*;

use crate::governor::Governor;
use crate::types::AccountId;
use crate::types::Balance;
use crate::types::GovernorError;
use crate::types::Proposal;
use crate::types::ProposalId;
use crate::types::TokenInfo;
use crate::types::TransferRequest;
use crate::types::VoteRecord;

verus! {

/// A successful `propose` stores its record under the counter's prior value,
/// grows the counter by exactly 1, and leaves every earlier record readable
/// unchanged.
pub proof fn lemma_propose_assigns_next_id(pre: Governor, post: Governor, p: Proposal)
    requires
        pre.spec_next_id() < u64::MAX,
        post.proposals@ == pre.proposals@.push(p),
    ensures
        post.spec_next_id() == pre.spec_next_id() + 1,
        post.spec_get_proposal(pre.spec_next_id() as u64) == Some(p),
        forall|i: ProposalId| i < pre.spec_next_id() ==> post.spec_get_proposal(i)
            == pre.spec_get_proposal(i),
{
}

/// A stored record's voting window is exactly `duration` minutes long,
/// measured from the moment of creation.
pub proof fn lemma_proposal_window(to: AccountId, amount: Balance, duration: u64, now: u64)
    requires
        now + duration * 60 <= u64::MAX,
    ensures
        crate::governor::proposal_record(to, amount, duration, now).vote_start == now,
        crate::governor::proposal_record(to, amount, duration, now).vote_end == now + duration
            * 60,
{
}

/// Once a (proposal, voter) pair is recorded, a second `vote` by the same
/// pair fails with `AlreadyVoted` — at any later time within the window, on
/// the still-unexecuted proposal, whatever the token contract answers.
pub proof fn lemma_no_double_vote(
    pre: Governor,
    post: Governor,
    proposal_id: ProposalId,
    caller: AccountId,
    now: u64,
    token: Option<TokenInfo>,
)
    requires
        post.voted@ == pre.voted@.push(VoteRecord { proposal: proposal_id, voter: caller }),
        post.proposals@ == pre.proposals@,
        proposal_id < post.spec_next_id(),
        !post.proposals@[proposal_id as int].executed,
        now <= post.proposals@[proposal_id as int].vote_end,
    ensures
        post.vote_outcome(proposal_id, caller, now, token) == Err::<(), GovernorError>(
            GovernorError::AlreadyVoted,
        ),
{
    let rec = VoteRecord { proposal: proposal_id, voter: caller };
    assert(post.voted@[post.voted@.len() - 1] == rec);
    assert(post.spec_has_voted(proposal_id, caller));
}

/// With no vote cast on a proposal and any nonzero quorum, `execute` fails
/// with `QuorumNotReached`, whatever the treasury holds.
pub proof fn lemma_quorum_not_reached_on_zero_votes(
    g: Governor,
    proposal_id: ProposalId,
    contract_balance: Balance,
)
    requires
        proposal_id < g.spec_next_id(),
        !g.proposals@[proposal_id as int].executed,
        g.votes_for@[proposal_id as int] == 0,
        g.votes_against@[proposal_id as int] == 0,
        g.quorum > 0,
    ensures
        g.execute_checks(proposal_id, contract_balance) == Err::<TransferRequest, GovernorError>(
            GovernorError::QuorumNotReached,
        ),
{
}

/// Even with quorum reached, a proposal whose weight against outweighs the
/// weight in favour fails `execute` with `ProposalNotAccepted`.
pub proof fn lemma_majority_required(
    g: Governor,
    proposal_id: ProposalId,
    contract_balance: Balance,
)
    requires
        proposal_id < g.spec_next_id(),
        !g.proposals@[proposal_id as int].executed,
        g.quorum as int <= g.participation(proposal_id),
        g.votes_against@[proposal_id as int] > g.votes_for@[proposal_id as int],
    ensures
        g.execute_checks(proposal_id, contract_balance) == Err::<TransferRequest, GovernorError>(
            GovernorError::ProposalNotAccepted,
        ),
{
}

/// A proposal asking for more than the treasury holds fails `execute` with
/// `AmountExceedContractBalance`, even when quorum and majority hold.
pub proof fn lemma_solvency_required(
    g: Governor,
    proposal_id: ProposalId,
    contract_balance: Balance,
)
    requires
        proposal_id < g.spec_next_id(),
        !g.proposals@[proposal_id as int].executed,
        g.quorum as int <= g.participation(proposal_id),
        g.votes_against@[proposal_id as int] <= g.votes_for@[proposal_id as int],
        g.proposals@[proposal_id as int].amount > contract_balance,
    ensures
        g.execute_checks(proposal_id, contract_balance) == Err::<TransferRequest, GovernorError>(
            GovernorError::AmountExceedContractBalance,
        ),
{
}

/// After a successful execution, every later `execute` of the same proposal
/// fails with `ProposalAlreadyExecuted`, whatever the treasury then holds:
/// the funds move at most once.
pub proof fn lemma_no_double_execute(
    pre: Governor,
    post: Governor,
    proposal_id: ProposalId,
    later_balance: Balance,
)
    requires
        proposal_id < pre.spec_next_id(),
        post.proposals@ == pre.proposals@.update(
            proposal_id as int,
            (Proposal { executed: true, ..pre.proposals@[proposal_id as int] }),
        ),
    ensures
        post.execute_checks(proposal_id, later_balance) == Err::<TransferRequest, GovernorError>(
            GovernorError::ProposalAlreadyExecuted,
        ),
{
}

/// A successful execution changes exactly one stored record, and of that
/// record exactly the `executed` flag: recipient, window and amount read
/// back unchanged, and every other proposal reads back as before.
pub proof fn lemma_execute_flips_only_executed(
    pre: Governor,
    post: Governor,
    proposal_id: ProposalId,
)
    requires
        proposal_id < pre.spec_next_id(),
        post.proposals@ == pre.proposals@.update(
            proposal_id as int,
            (Proposal { executed: true, ..pre.proposals@[proposal_id as int] }),
        ),
    ensures
        ({
            let p = pre.proposals@[proposal_id as int];
            let q = post.proposals@[proposal_id as int];
            q.to == p.to && q.vote_start == p.vote_start && q.vote_end == p.vote_end && q.amount
                == p.amount && q.executed
        }),
        post.spec_get_proposal(proposal_id) == Some(post.proposals@[proposal_id as int]),
        forall|i: ProposalId| i < pre.spec_next_id() && i != proposal_id
            ==> post.spec_get_proposal(i) == pre.spec_get_proposal(i),
{
}

} // verus!
