//! The plain values that the voter works on: identifiers, votes as they travel between voters,
//! and the errors of the library.
use vstd::prelude::*;

verus! {

/// The height of a block.
pub type BlockNumber = u64;

/// The hash of a block.
pub type BlockHash = [u8; 32];

/// The public key by which a voter is known.
pub type AuthorityId = [u8; 32];

/// A signature by a voter.
pub type AuthoritySignature = [u8; 64];

/// The number of a voter set.
pub type SetId = u64;

/// The number of a voting round.
pub type RoundNumber = u64;

/// The id under which a finality engine stores its justifications with a block.
pub type EngineId = [u8; 4];

/// The voters of a set, in the order of the set.
pub type AuthorityList = Vec<AuthorityId>;

/// A block that a voter puts up for a round; no hash stands for no block.
#[derive(Clone, Copy, Debug, PartialEq, Eq)]
pub struct Proposal {
    pub target_height: BlockNumber,
    pub target_hash: Option<BlockHash>,
    pub valid_round: Option<RoundNumber>,
    pub round: RoundNumber,
}

/// A first vote for a block; no hash stands for no block.
#[derive(Clone, Copy, Debug, PartialEq, Eq)]
pub struct Prevote {
    pub target_height: BlockNumber,
    pub target_hash: Option<BlockHash>,
    pub round: RoundNumber,
}

/// A second, committing vote for a block; no hash stands for no block.
#[derive(Clone, Copy, Debug, PartialEq, Eq)]
pub struct Precommit {
    pub target_height: BlockNumber,
    pub target_hash: Option<BlockHash>,
    pub round: RoundNumber,
}

/// A precommit and who signed it.
#[derive(Clone, Copy, Debug, PartialEq, Eq)]
pub struct SignedCommit {
    pub precommit: Precommit,
    pub signature: AuthoritySignature,
    pub id: AuthorityId,
}

/// The voters that are in charge, and the number of their set.
#[derive(Debug, PartialEq, Eq)]
pub struct AuthoritySet {
    pub current_authorities: AuthorityList,
    pub set_id: SetId,
}

/// What can go wrong.
#[derive(Debug, PartialEq, Eq)]
pub enum VoterError {
    /// The voter was about to do something that could break the safety of the protocol.
    Safety(String),
    /// The chain, the keystore or the database failed.
    Client(String),
    /// Bytes are not the encoding of the value that they should hold, as the codec says.
    Codec(parity_scale_codec::Error),
}

/// Whether two byte arrays hold the same bytes.
pub fn same_bytes<const N: usize>(a: &[u8; N], b: &[u8; N]) -> (same: bool)
    ensures
        same == (*a == *b),
{
    let mut i: usize = 0;
    while i < N
        invariant
            i <= N,
            forall|j: int| 0 <= j < i ==> a[j] == b[j],
        decreases N - i,
    {
        if a[i] != b[i] {
            assert(a[i as int] != b[i as int]);
            return false;
        }
        i += 1;
    }
    assert(*a =~= *b);
    true
}

/// The same voters in a list of their own.
pub fn copy_authorities(list: &[AuthorityId]) -> (copy: AuthorityList)
    ensures
        copy@ == list@,
{
    let mut copy: AuthorityList = Vec::with_capacity(list.len());
    let mut i: usize = 0;
    while i < list.len()
        invariant
            i <= list@.len(),
            copy@ == list@.take(i as int),
        decreases list@.len() - i,
    {
        copy.push(list[i]);
        i += 1;
        assert(list@.take(i as int) =~= list@.take(i - 1).push(list@[i - 1]));
    }
    assert(list@.take(list@.len() as int) =~= list@);
    copy
}

} // verus!
