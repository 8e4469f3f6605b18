use parity_scale_codec::{Decode, Error};
use tendermint_finality::codec::RoundParts;
use tendermint_finality::primitives::{AuthoritySet, Precommit, SignedCommit, VoterError};
use tendermint_finality::rounds::{CompletedRound, CompletedRounds};

fn round(number: u64, mark: u8) -> CompletedRound {
    CompletedRound {
        number,
        state: (number, [mark; 32]),
        base: (number + 1, [mark + 1; 32]),
        votes: Vec::new(),
    }
}

fn voters() -> AuthoritySet {
    AuthoritySet { current_authorities: vec![[7; 32], [8; 32]], set_id: 3 }
}

fn numbers(record: &CompletedRounds) -> Vec<u64> {
    record.iter().iter().map(|round| round.number).collect()
}

#[test]
fn new_record_holds_genesis_and_voters() {
    let record = CompletedRounds::new(round(0, 1), 5, &voters());
    assert_eq!(record.last(), &round(0, 1));
    assert_eq!(record.iter(), vec![&round(0, 1)]);
    let (set_id, ids) = record.set_info();
    assert_eq!(set_id, 5);
    assert_eq!(ids, &[[7u8; 32], [8u8; 32]][..]);
}

#[test]
fn push_evicts_the_oldest() {
    let mut record = CompletedRounds::new(round(0, 1), 5, &voters());
    record._push(round(1, 2));
    assert_eq!(numbers(&record), vec![0, 1]);
    record._push(round(2, 3));
    assert_eq!(numbers(&record), vec![1, 2]);
    assert_eq!(record.last(), &round(2, 3));
    record._push(round(7, 4));
    assert_eq!(numbers(&record), vec![2, 7]);
    assert_eq!(record.set_info().0, 5);
}

#[test]
fn push_between_keeps_order() {
    let mut record = CompletedRounds::new(round(1, 1), 5, &voters());
    record._push(round(9, 2));
    record._push(round(4, 3));
    assert_eq!(numbers(&record), vec![4, 9]);
    assert_eq!(record.last().number, 9);
}

#[test]
fn push_of_same_number_replaces() {
    let mut record = CompletedRounds::new(round(1, 1), 5, &voters());
    record._push(round(2, 2));
    record._push(round(1, 9));
    assert_eq!(record.iter(), vec![&round(1, 9), &round(2, 2)]);
    record._push(round(2, 8));
    assert_eq!(record.iter(), vec![&round(1, 9), &round(2, 8)]);
}

#[test]
fn push_twice_is_push_once() {
    let mut once = CompletedRounds::new(round(1, 1), 5, &voters());
    once._push(round(2, 2));
    once._push(round(3, 3));
    let mut twice = once.clone();
    twice._push(round(3, 3));
    assert_eq!(once, twice);
}

#[test]
fn older_round_is_not_taken_up() {
    let mut record = CompletedRounds::new(round(5, 1), 5, &voters());
    record._push(round(6, 2));
    let before = record.clone();
    record._push(round(4, 3));
    assert_eq!(record, before);
}

#[test]
fn highest_round_is_that_of_last() {
    let mut record = CompletedRounds::new(round(5, 1), 5, &voters());
    assert_eq!(record.highest_round(), 5);
    record._push(round(11, 2));
    assert_eq!(record.highest_round(), 11);
    assert_eq!(record.last().number, 11);
}

fn with_vote() -> CompletedRounds {
    let vote = SignedCommit {
        precommit: Precommit { target_height: 0x0102, target_hash: Some([0xaa; 32]), round: 6 },
        signature: [0xbb; 64],
        id: [0xcc; 32],
    };
    let nil = SignedCommit {
        precommit: Precommit { target_height: 4, target_hash: None, round: 6 },
        signature: [0xdd; 64],
        id: [0xee; 32],
    };
    let mut first = round(6, 1);
    first.votes = vec![vote, nil];
    let mut record = CompletedRounds::new(first, 0x0a0b, &voters());
    record._push(round(9, 20));
    record
}

fn expected_bytes() -> Vec<u8> {
    let mut bytes: Vec<u8> = vec![2 << 2];
    // Round 9, the latest, has no votes.
    bytes.extend_from_slice(&9u64.to_le_bytes());
    bytes.extend_from_slice(&9u64.to_le_bytes());
    bytes.extend_from_slice(&[20; 32]);
    bytes.extend_from_slice(&10u64.to_le_bytes());
    bytes.extend_from_slice(&[21; 32]);
    bytes.push(0);
    // Round 6 has two.
    bytes.extend_from_slice(&6u64.to_le_bytes());
    bytes.extend_from_slice(&6u64.to_le_bytes());
    bytes.extend_from_slice(&[1; 32]);
    bytes.extend_from_slice(&7u64.to_le_bytes());
    bytes.extend_from_slice(&[2; 32]);
    bytes.push(2 << 2);
    bytes.extend_from_slice(&0x0102u64.to_le_bytes());
    bytes.push(1);
    bytes.extend_from_slice(&[0xaa; 32]);
    bytes.extend_from_slice(&6u64.to_le_bytes());
    bytes.extend_from_slice(&[0xbb; 64]);
    bytes.extend_from_slice(&[0xcc; 32]);
    bytes.extend_from_slice(&4u64.to_le_bytes());
    bytes.push(0);
    bytes.extend_from_slice(&6u64.to_le_bytes());
    bytes.extend_from_slice(&[0xdd; 64]);
    bytes.extend_from_slice(&[0xee; 32]);
    // The voter set.
    bytes.extend_from_slice(&0x0a0bu64.to_le_bytes());
    bytes.push(2 << 2);
    bytes.extend_from_slice(&[7; 32]);
    bytes.extend_from_slice(&[8; 32]);
    bytes
}

#[test]
fn record_is_encoded_field_by_field() {
    assert_eq!(with_vote().encode(), expected_bytes());
}

#[test]
fn decoding_gives_the_record_back() {
    let bytes = with_vote().encode();
    let mut input: &[u8] = &bytes;
    assert_eq!(CompletedRounds::decode(&mut input), Ok(with_vote()));
    assert!(input.is_empty());
}

#[test]
fn decoding_leaves_what_follows() {
    let mut bytes = with_vote().encode();
    bytes.extend_from_slice(&[1, 2, 3]);
    let mut input: &[u8] = &bytes;
    assert_eq!(CompletedRounds::decode(&mut input), Ok(with_vote()));
    assert_eq!(input, &[1, 2, 3]);
}

/// What the codec itself says of bytes that are no record.
fn codec_error(mut bytes: &[u8]) -> Error {
    <(Vec<RoundParts>, u64, Vec<[u8; 32]>)>::decode(&mut bytes).unwrap_err()
}

#[test]
fn decoding_of_too_few_bytes_fails() {
    let bytes = with_vote().encode();
    let cut = &bytes[..bytes.len() - 1];
    let mut input: &[u8] = cut;
    assert_eq!(CompletedRounds::decode(&mut input), Err(VoterError::Codec(codec_error(cut))));
    let mut empty: &[u8] = &[];
    assert_eq!(CompletedRounds::decode(&mut empty), Err(VoterError::Codec(codec_error(&[]))));
}

#[test]
fn decoding_of_a_bad_tag_fails() {
    let mut bytes = with_vote().encode();
    let tag = 1 + 8 + 8 + 32 + 8 + 32 + 1 + 8 + 8 + 32 + 8 + 32 + 1 + 8;
    assert_eq!(bytes[tag], 1);
    bytes[tag] = 2;
    let mut input: &[u8] = &bytes;
    assert_eq!(CompletedRounds::decode(&mut input), Err(VoterError::Codec(codec_error(&bytes))));
}

#[test]
fn decoding_takes_rounds_as_they_stand() {
    let parts = |number: u64| (number, (0u64, [0u8; 32]), (0u64, [0u8; 32]), Vec::new());
    let bytes = CompletedRounds::from_parts(&vec![parts(3), parts(1), parts(8)], 5, Vec::new())
        .encode();
    let record = CompletedRounds::decode(&mut &bytes[..]).unwrap();
    assert_eq!(numbers(&record), vec![8, 1, 3]);
}

#[test]
fn parts_stand_for_the_record() {
    let record = with_vote();
    let parts = record.to_parts();
    assert_eq!(parts.len(), 2);
    assert_eq!(parts[0].0, 9);
    assert_eq!(parts[1].3[0].0, (0x0102, Some([0xaa; 32]), 6));
    let back = CompletedRounds::from_parts(&parts, 0x0a0b, vec![[7; 32], [8; 32]]);
    assert_eq!(back, record);
}
