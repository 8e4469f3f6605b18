use tendermint_finality::primitives::{same_bytes, Precommit, Prevote, Proposal};
use tendermint_finality::vote::{HasVoted, Vote};

fn proposal() -> Proposal {
    Proposal { target_height: 4, target_hash: Some([4; 32]), valid_round: None, round: 2 }
}

fn prevote() -> Prevote {
    Prevote { target_height: 5, target_hash: Some([5; 32]), round: 2 }
}

fn precommit() -> Precommit {
    Precommit { target_height: 6, target_hash: None, round: 2 }
}

#[test]
fn no_vote_leaves_everything_open() {
    let none = HasVoted::No;
    assert_eq!(none.proposal(), None);
    assert_eq!(none.prevote(), None);
    assert_eq!(none.precommit(), None);
    assert!(none.can_proposal() && none.can_prevote() && none.can_commit());
}

#[test]
fn proposal_is_repeated() {
    let voted = HasVoted::Yes([1; 32], Vote::Proposal(proposal()));
    assert_eq!(voted.proposal(), Some(&proposal()));
    assert_eq!(voted.prevote(), None);
    assert_eq!(voted.precommit(), None);
    assert!(!voted.can_proposal() && voted.can_prevote() && voted.can_commit());
}

#[test]
fn prevote_may_come_with_or_without_proposal() {
    let with = HasVoted::Yes([1; 32], Vote::Prevote(Some(proposal()), prevote()));
    assert_eq!(with.proposal(), Some(&proposal()));
    assert_eq!(with.prevote(), Some(&prevote()));
    assert!(!with.can_prevote() && with.can_commit());
    let without = HasVoted::Yes([1; 32], Vote::Prevote(None, prevote()));
    assert_eq!(without.proposal(), None);
    assert!(without.can_proposal());
}

#[test]
fn precommit_comes_with_prevote() {
    let voted = HasVoted::Yes([1; 32], Vote::Precommit(None, prevote(), precommit()));
    assert_eq!(voted.proposal(), None);
    assert_eq!(voted.prevote(), Some(&prevote()));
    assert_eq!(voted.precommit(), Some(&precommit()));
    assert!(!voted.can_prevote() && !voted.can_commit());
    let all = HasVoted::Yes([1; 32], Vote::Precommit(Some(proposal()), prevote(), precommit()));
    assert_eq!(all.proposal(), Some(&proposal()));
}

#[test]
fn bytes_are_compared_to_the_last() {
    let mut other = [3u8; 32];
    assert!(same_bytes(&[3; 32], &other));
    other[31] = 4;
    assert!(!same_bytes(&[3; 32], &other));
    other = [3; 32];
    other[0] = 4;
    assert!(!same_bytes(&[3; 32], &other));
}
