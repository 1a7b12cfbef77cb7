use dao_governor::governor::Governor;
use dao_governor::types::AccountId;
use dao_governor::types::GovernorError;
use dao_governor::types::Proposal;
use dao_governor::types::TokenInfo;
use dao_governor::types::TransferRequest;
use dao_governor::types::VoteType;

const ONE_MINUTE: u64 = 60;

fn token_contract() -> AccountId {
    AccountId { id: 1 }
}

fn django() -> AccountId {
    AccountId { id: 4 }
}

fn create_contract() -> Governor {
    Governor::new(token_contract(), 50)
}

fn answer(caller_balance: u128, total_supply: u128) -> Option<TokenInfo> {
    Some(TokenInfo { caller_balance, total_supply })
}

#[test]
fn propose_works() {
    let mut governor = create_contract();
    assert_eq!(
        governor.propose(django(), 0, 1, 0),
        Err(GovernorError::AmountShouldNotBeZero)
    );
    assert_eq!(
        governor.propose(django(), 100, 0, 0),
        Err(GovernorError::DurationError)
    );
    let result = governor.propose(django(), 100, 1, 0);
    assert_eq!(result, Ok(()));
    let proposal = governor.get_proposal(0).unwrap();
    assert_eq!(
        proposal,
        Proposal {
            to: django(),
            amount: 100,
            vote_start: 0,
            vote_end: ONE_MINUTE,
            executed: false,
        }
    );
    assert_eq!(governor.next_proposal_id(), 1);
}

#[test]
fn quorum_not_reached() {
    let mut governor = create_contract();
    let result = governor.propose(AccountId { id: 2 }, 100, 1, 0);
    assert_eq!(result, Ok(()));
    let execute = governor.execute(0, 1000, false);
    assert_eq!(execute, Err(GovernorError::QuorumNotReached));
}

#[test]
fn propose_assigns_sequential_ids() {
    let mut governor = create_contract();
    assert_eq!(governor.next_proposal_id(), 0);
    assert_eq!(governor.get_proposal(0), None);
    assert_eq!(governor.propose(django(), 100, 1, 500), Ok(()));
    assert_eq!(governor.propose(AccountId { id: 9 }, 7, 3, 600), Ok(()));
    assert_eq!(governor.next_proposal_id(), 2);
    let first = governor.get_proposal(0).unwrap();
    assert_eq!(first.vote_start, 500);
    assert_eq!(first.vote_end, 500 + ONE_MINUTE);
    let second = governor.get_proposal(1).unwrap();
    assert_eq!(second.vote_start, 600);
    assert_eq!(second.vote_end, 600 + 3 * ONE_MINUTE);
}

#[test]
fn propose_window_overflow() {
    let mut governor = create_contract();
    assert_eq!(
        governor.propose(django(), 100, 1, u64::MAX - 30),
        Err(GovernorError::ArithmeticOverflow)
    );
    assert_eq!(
        governor.propose(django(), 100, u64::MAX / 2, 0),
        Err(GovernorError::ArithmeticOverflow)
    );
    assert_eq!(governor.next_proposal_id(), 0);
}

#[test]
fn vote_on_unknown_proposal() {
    let mut governor = create_contract();
    assert_eq!(
        governor.vote(0, VoteType::For, django(), 0, answer(10, 100)),
        Err(GovernorError::ProposalNotFound)
    );
    assert_eq!(governor.propose(django(), 100, 1, 0), Ok(()));
    assert_eq!(
        governor.vote(1, VoteType::For, django(), 0, answer(10, 100)),
        Err(GovernorError::ProposalNotFound)
    );
}

#[test]
fn vote_twice_counts_once() {
    let mut governor = create_contract();
    assert_eq!(governor.propose(django(), 100, 1, 0), Ok(()));
    let voter = AccountId { id: 5 };
    assert_eq!(governor.vote(0, VoteType::For, voter, 10, answer(60, 100)), Ok(()));
    assert_eq!(governor.votes_for[0], 6_000_000);
    assert_eq!(
        governor.vote(0, VoteType::For, voter, 20, answer(60, 100)),
        Err(GovernorError::AlreadyVoted)
    );
    assert_eq!(governor.votes_for[0], 6_000_000);
    assert_eq!(governor.votes_against[0], 0);
}

#[test]
fn vote_after_window_closed() {
    let mut governor = create_contract();
    assert_eq!(governor.propose(django(), 100, 1, 0), Ok(()));
    assert_eq!(
        governor.vote(0, VoteType::For, django(), ONE_MINUTE + 1, answer(60, 100)),
        Err(GovernorError::VotePeriodEnded)
    );
    // The last instant of the window still accepts the vote.
    assert_eq!(
        governor.vote(0, VoteType::For, django(), ONE_MINUTE, answer(60, 100)),
        Ok(())
    );
}

#[test]
fn vote_on_executed_proposal() {
    let mut governor = create_contract();
    assert_eq!(governor.propose(django(), 100, 1, 0), Ok(()));
    assert_eq!(governor.vote(0, VoteType::For, AccountId { id: 5 }, 0, answer(60, 100)), Ok(()));
    assert_eq!(governor.execute(0, 1000, true), Ok(()));
    assert_eq!(
        governor.vote(0, VoteType::For, AccountId { id: 6 }, 0, answer(10, 100)),
        Err(GovernorError::ProposalAlreadyExecuted)
    );
}

#[test]
fn vote_token_query_failures() {
    let mut governor = create_contract();
    assert_eq!(governor.propose(django(), 100, 1, 0), Ok(()));
    assert_eq!(
        governor.vote(0, VoteType::For, django(), 0, None),
        Err(GovernorError::CallToTokenFailed)
    );
    assert_eq!(
        governor.vote(0, VoteType::For, django(), 0, answer(10, 0)),
        Err(GovernorError::CallToTokenFailed)
    );
    assert_eq!(governor.votes_for[0], 0);
}

#[test]
fn vote_weight_overflow() {
    let mut governor = create_contract();
    assert_eq!(governor.propose(django(), 100, 1, 0), Ok(()));
    assert_eq!(
        governor.vote(0, VoteType::For, django(), 0, answer(u128::MAX, u128::MAX)),
        Err(GovernorError::ArithmeticOverflow)
    );
    assert_eq!(governor.votes_for[0], 0);
}

#[test]
fn vote_weight_formula() {
    let mut governor = create_contract();
    assert_eq!(governor.propose(django(), 100, 1, 0), Ok(()));
    // 25 of 400 tokens: 6.25 percent, kept as 625_000 hundred-thousandths.
    assert_eq!(governor.vote(0, VoteType::For, AccountId { id: 5 }, 0, answer(25, 400)), Ok(()));
    assert_eq!(governor.votes_for[0], 625_000);
    assert_eq!(governor.vote(0, VoteType::Against, AccountId { id: 6 }, 0, answer(1, 3)), Ok(()));
    assert_eq!(governor.votes_against[0], 3_333_333);
}

#[test]
fn execute_rejected_without_majority() {
    let mut governor = create_contract();
    assert_eq!(governor.propose(django(), 100, 1, 0), Ok(()));
    assert_eq!(governor.vote(0, VoteType::For, AccountId { id: 5 }, 0, answer(30, 100)), Ok(()));
    assert_eq!(
        governor.vote(0, VoteType::Against, AccountId { id: 6 }, 0, answer(31, 100)),
        Ok(())
    );
    // Participation is 61 percent, above the 50 percent quorum, yet the
    // weight against wins.
    assert_eq!(governor.execute(0, 1000, true), Err(GovernorError::ProposalNotAccepted));
}

#[test]
fn execute_tie_is_accepted() {
    let mut governor = create_contract();
    assert_eq!(governor.propose(django(), 100, 1, 0), Ok(()));
    assert_eq!(governor.vote(0, VoteType::For, AccountId { id: 5 }, 0, answer(30, 100)), Ok(()));
    assert_eq!(
        governor.vote(0, VoteType::Against, AccountId { id: 6 }, 0, answer(30, 100)),
        Ok(())
    );
    assert_eq!(governor.execute(0, 1000, true), Ok(()));
}

#[test]
fn execute_needs_treasury_balance() {
    let mut governor = create_contract();
    assert_eq!(governor.propose(django(), 100, 1, 0), Ok(()));
    assert_eq!(governor.vote(0, VoteType::For, AccountId { id: 5 }, 0, answer(60, 100)), Ok(()));
    assert_eq!(
        governor.execute(0, 99, true),
        Err(GovernorError::AmountExceedContractBalance)
    );
    assert!(!governor.get_proposal(0).unwrap().executed);
}

#[test]
fn execute_twice_moves_funds_once() {
    let mut governor = create_contract();
    assert_eq!(governor.propose(django(), 100, 1, 0), Ok(()));
    assert_eq!(governor.vote(0, VoteType::For, AccountId { id: 5 }, 0, answer(60, 100)), Ok(()));
    let mut treasury: u128 = 1000;
    let request = governor.prepare_execute(0, treasury).unwrap();
    treasury -= request.amount;
    assert_eq!(governor.execute(0, 1000, true), Ok(()));
    assert_eq!(treasury, 900);
    assert_eq!(governor.execute(0, treasury, true), Err(GovernorError::ProposalAlreadyExecuted));
    assert_eq!(treasury, 900);
}

#[test]
fn failed_transfer_is_retryable() {
    let mut governor = create_contract();
    assert_eq!(governor.propose(django(), 100, 1, 0), Ok(()));
    assert_eq!(governor.vote(0, VoteType::For, AccountId { id: 5 }, 0, answer(60, 100)), Ok(()));
    assert_eq!(governor.execute(0, 1000, false), Err(GovernorError::TransferFailed));
    assert!(!governor.get_proposal(0).unwrap().executed);
    assert_eq!(governor.execute(0, 1000, true), Ok(()));
    assert!(governor.get_proposal(0).unwrap().executed);
}

#[test]
fn execute_flips_only_the_flag() {
    let mut governor = create_contract();
    assert_eq!(governor.propose(django(), 100, 1, 0), Ok(()));
    assert_eq!(governor.vote(0, VoteType::For, AccountId { id: 5 }, 0, answer(60, 100)), Ok(()));
    let before = governor.get_proposal(0).unwrap();
    assert_eq!(governor.execute(0, 1000, true), Ok(()));
    let after = governor.get_proposal(0).unwrap();
    assert_eq!(after, Proposal { executed: true, ..before });
}

#[test]
fn end_to_end_accepted_proposal() {
    let mut treasury: u128 = 1000;
    let mut governor = create_contract();
    let now: u64 = 7_000;
    assert_eq!(governor.propose(django(), 100, 1, now), Ok(()));
    assert_eq!(governor.next_proposal_id(), 1);
    let proposal = governor.get_proposal(0).unwrap();
    assert_eq!(proposal.vote_start, now);
    assert_eq!(proposal.vote_end, now + ONE_MINUTE);

    // No votes yet: quorum of 50 percent cannot be reached.
    assert_eq!(governor.execute(0, treasury, true), Err(GovernorError::QuorumNotReached));

    // One voter holding 60 percent of the supply votes in favour.
    assert_eq!(
        governor.vote(0, VoteType::For, AccountId { id: 5 }, now + 1, answer(600, 1000)),
        Ok(())
    );
    assert_eq!(governor.votes_for[0], 6_000_000);

    // Participation 6_000_000 / 100_000 = 60 >= 50, majority holds, funds
    // suffice: the ledger is asked for one transfer of 100 to the
    // recipient, and the record flips to executed.
    let request = governor.prepare_execute(0, treasury).unwrap();
    assert_eq!(request, TransferRequest { to: django(), amount: 100 });
    treasury -= request.amount;
    assert_eq!(governor.execute(0, 1000, true), Ok(()));
    assert_eq!(treasury, 900);
    assert!(governor.get_proposal(0).unwrap().executed);
}
