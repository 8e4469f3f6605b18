use tendermint_finality::primitives::VoterError;
use tendermint_finality::target::{
    next_target, Header, TargetAction, TargetEvent, TargetSearch,
};

/// The block with the number on the main branch, or on a side branch that leaves it at 2.
fn header(number: u64, side: bool) -> Header {
    let hash = |number: u64| {
        let mut hash = [0u8; 32];
        hash[0] = number as u8;
        hash[1] = if side && number > 2 { 1 } else { 0 };
        hash
    };
    Header { number, hash: hash(number), parent_hash: hash(number.saturating_sub(1)) }
}

fn read(hash: [u8; 32]) -> Option<Header> {
    let side = hash[1] == 1;
    if hash[0] <= 9 {
        Some(header(hash[0] as u64, side))
    } else {
        None
    }
}

fn run(block: [u8; 32], best: Result<[u8; 32], VoterError>) -> TargetSearch {
    run_above(0, block, best)
}

/// Runs the search on a chain that knows no block below the lowest number.
fn run_above(
    lowest: u64,
    block: [u8; 32],
    best: Result<[u8; 32], VoterError>,
) -> TargetSearch {
    let known = |hash: [u8; 32]| read(hash).filter(|header| header.number >= lowest);
    let mut best = Some(best);
    let mut search = next_target(block);
    loop {
        let event = match search.action() {
            TargetAction::ReadHeader(hash) => TargetEvent::Header(Ok(known(hash))),
            TargetAction::ChooseTarget(base) => {
                assert_eq!(base, block);
                TargetEvent::Chosen(best.take().unwrap())
            }
            TargetAction::Stop => return search,
        };
        assert!(search.accepts(&event));
        search = search.advance(event);
    }
}

fn found(number: u64, side: bool) -> TargetSearch {
    TargetSearch::Finished { found: Ok(Some((number, header(number, side).hash))) }
}

#[test]
fn child_of_base_towards_best_block_is_found() {
    assert_eq!(run(header(2, false).hash, Ok(header(9, false).hash)), found(3, false));
    assert_eq!(run(header(2, false).hash, Ok(header(9, true).hash)), found(3, true));
    assert_eq!(run(header(0, false).hash, Ok(header(9, true).hash)), found(1, false));
}

#[test]
fn pruned_chain_is_searched_down_to_the_base() {
    assert_eq!(run_above(4, header(4, false).hash, Ok(header(9, false).hash)), found(5, false));
    assert_eq!(run_above(4, header(4, false).hash, Ok(header(4, false).hash)), found(4, false));
}

#[test]
fn best_block_right_above_base_is_found() {
    assert_eq!(run(header(4, false).hash, Ok(header(5, false).hash)), found(5, false));
}

#[test]
fn best_block_at_base_number_is_found_itself() {
    assert_eq!(run(header(4, false).hash, Ok(header(4, false).hash)), found(4, false));
    assert_eq!(run(header(4, false).hash, Ok(header(4, true).hash)), found(4, true));
}

#[test]
fn unknown_base_leaves_nothing_to_propose() {
    assert_eq!(
        run([77; 32], Ok(header(4, false).hash)),
        TargetSearch::Finished { found: Ok(None) }
    );
}

#[test]
fn failed_choice_leaves_nothing_to_propose() {
    assert_eq!(
        run(header(4, false).hash, Err(VoterError::Client("no chain".to_string()))),
        TargetSearch::Finished { found: Ok(None) }
    );
}

#[test]
fn failure_to_read_the_base_is_an_error() {
    let search = next_target([1; 32])
        .advance(TargetEvent::Header(Err(VoterError::Client("disk".to_string()))));
    assert_eq!(
        search,
        TargetSearch::Finished { found: Err(VoterError::Client("disk".to_string())) }
    );
}

#[test]
fn failure_to_read_a_later_header_leaves_nothing() {
    let failure = || TargetEvent::Header(Err(VoterError::Client("disk".to_string())));
    let nothing = TargetSearch::Finished { found: Ok(None) };
    let current = header(9, false);
    assert_eq!(TargetSearch::Target { base: 4, target: current.hash }.advance(failure()), nothing);
    assert_eq!(TargetSearch::Parent { base: 4, current }.advance(failure()), nothing);
    assert_eq!(TargetSearch::Descend { base: 4, current }.advance(failure()), nothing);
}

#[test]
fn missing_or_too_low_headers_are_not_accepted() {
    let missing = TargetEvent::Header(Ok(None));
    let current = header(9, false);
    assert!(next_target([1; 32]).accepts(&missing));
    assert!(!TargetSearch::Target { base: 4, target: current.hash }.accepts(&missing));
    assert!(!TargetSearch::Parent { base: 4, current }.accepts(&missing));
    assert!(!TargetSearch::Descend { base: 4, current }.accepts(&missing));
    let low = TargetEvent::Header(Ok(Some(header(3, false))));
    assert!(!TargetSearch::Parent { base: 4, current }.accepts(&low));
    assert!(TargetSearch::Parent { base: 3, current }.accepts(&low));
}

#[test]
fn events_that_were_not_asked_for_are_not_accepted() {
    let chosen = TargetEvent::Chosen(Ok([1; 32]));
    assert!(!next_target([1; 32]).accepts(&chosen));
    let finished = TargetSearch::Finished { found: Ok(None) };
    assert!(!finished.accepts(&chosen));
    assert_eq!(finished.action(), TargetAction::Stop);
}
