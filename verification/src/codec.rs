//! The binary form of completed rounds, as `parity_scale_codec` writes and reads it.
use crate::primitives::{
    AuthorityId, AuthoritySignature, BlockHash, BlockNumber, RoundNumber, SetId,
};
use vstd::prelude::*;

verus! {

/// A signed precommit as a tuple: height, hash and round of the precommit, then the signature,
/// then the signer.
pub type VoteParts = (
    (BlockNumber, Option<BlockHash>, RoundNumber),
    AuthoritySignature,
    AuthorityId,
);

/// A completed round as a tuple: number, state, base and votes.
pub type RoundParts = (
    RoundNumber,
    (BlockNumber, BlockHash),
    (BlockNumber, BlockHash),
    Vec<VoteParts>,
);

/// A completed round as a tuple, with its votes as a sequence.
pub type RoundTuple = (
    RoundNumber,
    (BlockNumber, BlockHash),
    (BlockNumber, BlockHash),
    Seq<VoteParts>,
);

/// The rounds of a vector, each as a tuple with a sequence.
pub open spec fn round_tuples(rounds: Seq<RoundParts>) -> Seq<RoundTuple> {
    rounds.map_values(|round: RoundParts| (round.0, round.1, round.2, round.3@))
}

/// The bytes that `parity_scale_codec` makes of rounds, set number and voters in a row.
pub uninterp spec fn scale_encoding(
    rounds: Seq<RoundTuple>,
    set_id: SetId,
    voters: Seq<AuthorityId>,
) -> Seq<u8>;

/// The rounds, set number and voters that `parity_scale_codec` reads at the start of the bytes,
/// and how many bytes it takes for them; its error where it finds no such values there.
pub uninterp spec fn scale_decoding(bytes: Seq<u8>) -> Result<
    ((Seq<RoundTuple>, SetId, Seq<AuthorityId>), int),
    parity_scale_codec::Error,
>;

/// The error of `parity_scale_codec`, which says why decoding failed.
#[verifier::external_type_specification]
#[verifier::external_body]
pub struct ExCodecError(parity_scale_codec::Error);

/// `parity_scale_codec::Encode::encode` on the tuple of rounds, set number and voters.
///
/// The bytes are a function of the values, and decoding gives the values back from them and
/// takes exactly these bytes, whatever follows. `encode` panics on a vector of more than
/// `u32::MAX` items.
#[verifier::external_body]
pub(crate) fn encode_parts(
    rounds: &Vec<RoundParts>,
    set_id: &SetId,
    voters: &Vec<AuthorityId>,
) -> (bytes: Vec<u8>)
    requires
        rounds@.len() <= u32::MAX,
        forall|i: int| 0 <= i < rounds@.len() ==> (#[trigger] rounds@[i]).3@.len() <= u32::MAX,
        voters@.len() <= u32::MAX,
    ensures
        bytes@ == scale_encoding(round_tuples(rounds@), *set_id, voters@),
        forall|rest: Seq<u8>| #[trigger]
            scale_decoding(bytes@ + rest) == Ok::<_, parity_scale_codec::Error>(
                ((round_tuples(rounds@), *set_id, voters@), bytes@.len() as int),
            ),
{
    parity_scale_codec::Encode::encode(&(rounds, set_id, voters))
}

/// `parity_scale_codec::Decode::decode` into the tuple of rounds, set number and voters.
///
/// The values that come out, how far the input moves on, and the error where there is one are a
/// function of the bytes of the input; it moves on by no more than it holds. Nothing is said of
/// where the input stands after an error. How much an error tells depends on the features that
/// the codec is built with.
#[verifier::external_body]
pub(crate) fn decode_parts(input: &mut &[u8]) -> (parsed: Result<
    (Vec<RoundParts>, SetId, Vec<AuthorityId>),
    parity_scale_codec::Error,
>)
    ensures
        match parsed {
            Ok(parts) => {
                let read = old(input)@.len() - final(input)@.len();
                &&& 0 <= read
                &&& final(input)@ == old(input)@.skip(read)
                &&& scale_decoding(old(input)@) == Ok::<_, parity_scale_codec::Error>(
                    ((round_tuples(parts.0@), parts.1, parts.2@), read),
                )
            },
            Err(error) => scale_decoding(old(input)@) == Err::<
                ((Seq<RoundTuple>, SetId, Seq<AuthorityId>), int),
                parity_scale_codec::Error,
            >(error),
        },
{
    parity_scale_codec::Decode::decode(input)
}

/// Each round stands in its place, whole.
pub proof fn tuples_are_the_rounds(rounds: Seq<RoundParts>, i: int)
    requires
        0 <= i < rounds.len(),
    ensures
        round_tuples(rounds).len() == rounds.len(),
        round_tuples(rounds)[i].0 == rounds[i].0,
        round_tuples(rounds)[i].1 == rounds[i].1,
        round_tuples(rounds)[i].2 == rounds[i].2,
        round_tuples(rounds)[i].3 == rounds[i].3@,
{
}

} // verus!
