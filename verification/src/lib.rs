//! Finality by Tendermint voting: the record a voter keeps of its rounds, the search for the
//! block to propose next, the finalization of a block, and the authority list kept on chain.
//!
//! Every decision is a function on plain values with a proved contract. What has to be read
//! from a chain, a keystore or a database is asked for through an action and handed back as an
//! event (see [`target`] and [`finality`]).
pub mod codec;
pub mod environment;
pub mod finality;
mod locks;
pub mod pallet;
pub mod primitives;
pub mod rounds;
pub mod shared;
pub mod target;
pub mod vote;
pub mod voter_state;
