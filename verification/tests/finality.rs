use tendermint_finality::finality::{
    already_finalized, finalize_block, justification_due, ChangeStatus, CommandOrError,
    FinalityAction, FinalityEvent, FinalizedCommit, JustificationOrCommit, NewAuthoritySet, Phase,
    TendermintJustification, VoterCommand,
};
use tendermint_finality::primitives::VoterError;

const HASH: [u8; 32] = [5; 32];
const ENGINE: [u8; 4] = [1, 2, 3, 4];

/// What the world replies: the number of the last finalized block, the hash that is looked up,
/// what becomes of the authority set, and what fails.
struct World {
    finalized: u64,
    canonical: Option<[u8; 32]>,
    change: ChangeStatus,
    fail_at: &'static str,
}

fn quiet() -> World {
    World {
        finalized: 10,
        canonical: Some(HASH),
        change: ChangeStatus { changed: false, new_set_block: None },
        fail_at: "",
    }
}

fn enacting() -> World {
    World {
        change: ChangeStatus { changed: true, new_set_block: Some(([4; 32], 11)) },
        ..quiet()
    }
}

fn justification(mark: u8) -> TendermintJustification {
    TendermintJustification { encoded: vec![mark; 3] }
}

fn commit() -> FinalizedCommit {
    FinalizedCommit { target_hash: HASH, target_number: 12, commits: Vec::new() }
}

fn by_commit() -> JustificationOrCommit {
    JustificationOrCommit::from((7, commit()))
}

fn by_justification() -> JustificationOrCommit {
    JustificationOrCommit::from(justification(1))
}

fn error(at: &str) -> VoterError {
    VoterError::Client(at.to_string())
}

/// Runs a finalization of block 12 and tells what was asked, how it ended and whether the
/// authority set is to be put back.
fn run(
    world: World,
    source: JustificationOrCommit,
    period: Option<u64>,
) -> (Vec<String>, Result<(), CommandOrError>, bool) {
    let mut asked: Vec<String> = Vec::new();
    let mut finalization = finalize_block(ENGINE, HASH, 12, period, source, false);
    let done = |at: &str| {
        FinalityEvent::Done(if world.fail_at == at { Err(error(at)) } else { Ok(()) })
    };
    loop {
        let (what, event) = match finalization.action() {
            FinalityAction::ReadFinalizedNumber => {
                ("number".to_string(), FinalityEvent::FinalizedNumber(world.finalized))
            }
            FinalityAction::ReadHash(number) => (
                format!("hash {}", number),
                FinalityEvent::BlockHash(if world.fail_at == "hash" {
                    Err(error("hash"))
                } else {
                    Ok(world.canonical)
                }),
            ),
            FinalityAction::BeginImport => ("begin".to_string(), done("begin")),
            FinalityAction::ApplyChanges { hash, number, initial_sync } => {
                assert_eq!((hash, number, initial_sync), (HASH, 12, false));
                (
                    "changes".to_string(),
                    FinalityEvent::Changes(if world.fail_at == "changes" {
                        Err("fork".to_string())
                    } else {
                        Ok(world.change)
                    }),
                )
            }
            FinalityAction::BuildJustification { round, commit: used } => {
                assert_eq!((round, used), (7, &commit()));
                (
                    "build".to_string(),
                    FinalityEvent::Justification(if world.fail_at == "build" {
                        Err(error("build"))
                    } else {
                        Ok(justification(2))
                    }),
                )
            }
            FinalityAction::Notify(told) => {
                (format!("notify {}", told.encoded[0]), FinalityEvent::Notified)
            }
            FinalityAction::ApplyFinality { hash, justification, notify } => {
                assert_eq!(hash, HASH);
                assert!(notify);
                let stored = match justification {
                    Some((engine_id, justification)) => {
                        assert_eq!(engine_id, ENGINE);
                        format!(" {}", justification.encoded[0])
                    }
                    None => String::new(),
                };
                (format!("apply{}", stored), done("apply"))
            }
            FinalityAction::StoreBest(best) => (format!("best {}", best.encoded[0]), done("best")),
            FinalityAction::ReadAuthorities => (
                "authorities".to_string(),
                FinalityEvent::Authorities(3, vec![[1; 32], [2; 32]]),
            ),
            FinalityAction::WriteAuthorities(new_set) => {
                (format!("write {}", new_set.is_some()), done("write"))
            }
            FinalityAction::CommitImport => ("commit".to_string(), done("commit")),
            FinalityAction::Stop { restore } => match finalization.phase {
                Phase::Finished { result, restore: put_back } => {
                    assert_eq!(restore, put_back);
                    return (asked, result, restore);
                }
                phase => panic!("not finished: {:?}", phase),
            },
        };
        asked.push(what);
        assert!(finalization.accepts(&event));
        finalization = finalization.advance(event);
    }
}

#[test]
fn refinalized_block_changes_nothing() {
    for finalized in [12, 13, 40] {
        let world = World { finalized, ..enacting() };
        let (asked, result, restore) = run(world, by_commit(), Some(8));
        assert_eq!(asked, vec!["number", "hash 12"]);
        assert_eq!(result, Ok(()));
        assert!(!restore);
    }
}

#[test]
fn block_above_the_finalized_one_is_not_refinalized() {
    let world = World { finalized: 11, ..quiet() };
    let (asked, result, _) = run(world, by_commit(), None);
    assert_eq!(asked[1], "hash 11");
    assert_eq!(asked.len(), 9);
    assert_eq!(result, Ok(()));
}

#[test]
fn block_off_the_chain_is_not_refinalized() {
    for canonical in [Some([9; 32]), None] {
        let world = World { finalized: 40, canonical, ..quiet() };
        let (asked, result, _) = run(world, by_commit(), None);
        assert_eq!(asked.len(), 9);
        assert_eq!(result, Ok(()));
    }
}

#[test]
fn plain_block_is_finalized_without_stored_justification() {
    let (asked, result, restore) = run(quiet(), by_commit(), Some(8));
    assert_eq!(
        asked,
        vec![
            "number", "hash 10", "begin", "changes", "number", "build", "notify 2", "apply",
            "best 2", "commit"
        ]
    );
    assert_eq!(result, Ok(()));
    assert!(!restore);
}

#[test]
fn justification_is_stored_at_the_turn_of_a_period() {
    let (asked, result, _) = run(quiet(), by_commit(), Some(4));
    assert!(asked.contains(&"apply 2".to_string()));
    assert_eq!(result, Ok(()));
}

#[test]
fn given_justification_is_always_stored() {
    let (asked, result, _) = run(quiet(), by_justification(), Some(8));
    assert_eq!(
        asked,
        vec!["number", "hash 10", "begin", "changes", "notify 1", "apply 1", "best 1", "commit"]
    );
    assert_eq!(result, Ok(()));
}

#[test]
fn new_authority_set_is_told_to_the_voter() {
    let (asked, result, restore) = run(enacting(), by_commit(), Some(8));
    assert_eq!(
        asked,
        vec![
            "number", "hash 10", "begin", "changes", "build", "notify 2", "apply 2", "best 2",
            "authorities", "write true", "commit"
        ]
    );
    let new_set = NewAuthoritySet {
        canon_hash: [4; 32],
        canon_number: 11,
        set_id: 3,
        authorities: vec![[1; 32], [2; 32]],
    };
    assert_eq!(
        result,
        Err(CommandOrError::VoterCommand(VoterCommand::ChangeAuthorities(new_set)))
    );
    assert!(!restore);
}

#[test]
fn changed_set_without_new_one_is_written() {
    let world = World { change: ChangeStatus { changed: true, new_set_block: None }, ..quiet() };
    let (asked, result, _) = run(world, by_commit(), None);
    assert_eq!(asked[asked.len() - 2], "write false");
    assert_eq!(result, Ok(()));
}

#[test]
fn every_failure_puts_the_authority_set_back() {
    for at in ["begin", "build", "apply", "best", "write", "commit"] {
        let world = World { fail_at: at, ..enacting() };
        let (asked, result, restore) = run(world, by_commit(), Some(8));
        assert!(asked.last().unwrap().starts_with(at));
        assert_eq!(result, Err(CommandOrError::Error(error(at))));
        assert!(restore);
    }
}

#[test]
fn inapplicable_changes_are_a_safety_error() {
    let world = World { fail_at: "changes", ..quiet() };
    let (_, result, restore) = run(world, by_commit(), Some(8));
    assert_eq!(result, Err(CommandOrError::Error(VoterError::Safety("fork".to_string()))));
    assert!(restore);
}

#[test]
fn failure_to_read_the_hash_leaves_the_authority_set() {
    let world = World { fail_at: "hash", ..quiet() };
    let (asked, result, restore) = run(world, by_commit(), Some(8));
    assert_eq!(asked, vec!["number", "hash 10"]);
    assert_eq!(result, Err(CommandOrError::Error(error("hash"))));
    assert!(!restore);
}

#[test]
fn justification_is_due_once_a_period() {
    assert!(justification_due(8, 7, 8));
    assert!(!justification_due(8, 8, 15));
    assert!(justification_due(8, 8, 16));
    assert!(justification_due(8, 3, 40));
    assert!(!justification_due(8, 10, 12));
}

#[test]
fn first_justification_is_due_at_the_first_period() {
    assert!(justification_due(8, 0, 8));
    assert!(!justification_due(8, 0, 9));
    assert!(!justification_due(8, 0, 16));
    assert!(!justification_due(0, 0, 5));
}

#[test]
fn unusable_period_is_not_accepted() {
    let asks = |number: u64| {
        let mut finalization = finalize_block(ENGINE, HASH, number, Some(0), by_commit(), false);
        let change = ChangeStatus { changed: false, new_set_block: None };
        for event in [
            FinalityEvent::FinalizedNumber(0),
            FinalityEvent::BlockHash(Ok(None)),
            FinalityEvent::Done(Ok(())),
            FinalityEvent::Changes(Ok(change)),
        ] {
            finalization = finalization.advance(event);
        }
        finalization
    };
    assert!(!asks(12).accepts(&FinalityEvent::FinalizedNumber(3)));
    assert!(asks(12).accepts(&FinalityEvent::FinalizedNumber(0)));
    assert!(!asks(0).accepts(&FinalityEvent::FinalizedNumber(0)));
}

#[test]
fn finalized_means_not_above_and_on_the_chain() {
    assert!(already_finalized(&HASH, 12, 12, &Some(HASH)));
    assert!(already_finalized(&HASH, 11, 12, &Some(HASH)));
    assert!(!already_finalized(&HASH, 13, 12, &Some(HASH)));
    assert!(!already_finalized(&HASH, 12, 12, &Some([6; 32])));
    assert!(!already_finalized(&HASH, 12, 12, &None));
}

#[test]
fn events_out_of_turn_are_refused() {
    let finalization = finalize_block(ENGINE, HASH, 12, None, by_commit(), true);
    assert!(!finalization.accepts(&FinalityEvent::Notified));
    assert!(!finalization.accepts(&FinalityEvent::Done(Ok(()))));
    assert!(finalization.accepts(&FinalityEvent::FinalizedNumber(0)));
}
