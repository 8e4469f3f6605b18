//! The authority list and the number of its set, as they are kept on chain.
use crate::primitives::{copy_authorities, AuthorityId, AuthorityList, SetId};
use std::marker::PhantomData;
use vstd::prelude::*;

verus! {

/// A type that stands for a number.
pub trait Get {
    /// The number that the type stands for.
    spec fn value() -> u32;

    /// Get the number.
    fn get() -> (value: u32)
        ensures
            value == Self::value(),
    ;
}

/// The type that stands for the number `N`.
pub struct ConstU32<const N: u32>;

impl<const N: u32> Get for ConstU32<N> {
    open spec fn value() -> u32 {
        N
    }

    fn get() -> (value: u32) {
        N
    }
}

/// The types that the pallet depends on.
pub trait Config {
    /// The maximum number of authorities that the pallet can hold.
    type MaxAuthorities: Get;
}

/// Whether the pallet can hold the authorities: there are not too many of them.
pub open spec fn can_hold<T: Config>(authorities: Seq<AuthorityId>) -> bool {
    authorities.len() <= T::MaxAuthorities::value()
}

/// What the pallet keeps on chain; `None` where nothing has been written yet.
#[derive(Debug, PartialEq, Eq)]
pub struct Storage {
    pub authorities: Option<AuthorityList>,
    pub current_set_id: Option<SetId>,
}

impl Storage {
    /// The authorities on chain: none before any were written.
    pub open spec fn list(self) -> Seq<AuthorityId> {
        match self.authorities {
            Some(authorities) => authorities@,
            None => seq![],
        }
    }

    /// The number of the set on chain: 0 before one was written.
    pub open spec fn set_number(self) -> SetId {
        match self.current_set_id {
            Some(set_id) => set_id,
            None => 0,
        }
    }
}

/// The state of the voters on chain.
pub struct Pallet<T>(PhantomData<T>);

impl<T: Config> Pallet<T> {
    /// Get the current set of authorities.
    pub fn authorities(storage: &Storage) -> (authorities: AuthorityList)
        ensures
            authorities@ == storage.list(),
            match storage.authorities {
                Some(stored) => authorities@ == stored@,
                None => authorities@.len() == 0,
            },
    {
        match &storage.authorities {
            Some(authorities) => copy_authorities(authorities.as_slice()),
            None => Vec::new(),
        }
    }

    /// The number of changes (both in terms of keys and underlying economic responsibilities)
    /// in the "set" of Tendermint validators from genesis.
    pub fn current_set_id(storage: &Storage) -> (set_id: SetId)
        ensures
            set_id == storage.set_number(),
            match storage.current_set_id {
                Some(stored) => set_id == stored,
                None => set_id == 0,
            },
    {
        match storage.current_set_id {
            Some(set_id) => set_id,
            None => 0,
        }
    }

    /// Whether there are not more authorities than the pallet can hold.
    pub fn fits(authorities: &AuthorityList) -> (fits: bool)
        ensures
            fits == can_hold::<T>(authorities@),
            fits <==> authorities@.len() <= T::MaxAuthorities::value(),
    {
        authorities.len() <= T::MaxAuthorities::get() as usize
    }

    /// Set the current set of authorities. There must not be more than the pallet can hold.
    pub fn set_authorities(storage: &mut Storage, new_authorities: &AuthorityList)
        requires
            can_hold::<T>(new_authorities@),
        ensures
            final(storage).authorities is Some,
            final(storage).list() == new_authorities@,
            final(storage).current_set_id == old(storage).current_set_id,
            can_hold::<T>(final(storage).list()),
            final(storage).authorities->0@ == new_authorities@,
            final(storage).authorities->0@.len() <= T::MaxAuthorities::value(),
    {
        storage.authorities = Some(copy_authorities(new_authorities.as_slice()));
    }

    /// Initial authorities. There must be none on chain yet, unless there are none to write, and
    /// not more than the pallet can hold.
    pub fn initialize(storage: &mut Storage, authorities: &AuthorityList)
        requires
            authorities@.len() > 0 ==> old(storage).list().len() == 0,
            can_hold::<T>(authorities@),
        ensures
            can_hold::<T>(old(storage).list()) ==> can_hold::<T>(final(storage).list()),
            authorities@.len() == 0 ==> *final(storage) == *old(storage),
            authorities@.len() > 0 ==> {
                &&& final(storage).list() == authorities@
                &&& final(storage).authorities is Some
                &&& final(storage).current_set_id == old(storage).current_set_id
                &&& final(storage).authorities->0@ == authorities@
            },
    {
        if authorities.len() > 0 {
            Pallet::<T>::set_authorities(storage, authorities);
        }
    }
}

/// With what the chain starts.
pub struct GenesisConfig<T: Config> {
    pub authorities: AuthorityList,
    pub _config: PhantomData<T>,
}

impl<T: Config> Default for GenesisConfig<T> {
    /// A chain that starts without authorities.
    fn default() -> (config: Self)
        ensures
            config.authorities@.len() == 0,
    {
        GenesisConfig { authorities: Vec::new(), _config: PhantomData }
    }
}

impl<T: Config> GenesisConfig<T> {
    /// Writes the first set, with number 0, and its authorities. There must be none on chain yet,
    /// unless there are none to write, and not more than the pallet can hold.
    pub fn build(&self, storage: &mut Storage)
        requires
            self.authorities@.len() > 0 ==> old(storage).list().len() == 0,
            can_hold::<T>(self.authorities@),
        ensures
            can_hold::<T>(old(storage).list()) ==> can_hold::<T>(final(storage).list()),
            final(storage).current_set_id == Some(0 as SetId),
            final(storage).list() == if self.authorities@.len() > 0 {
                self.authorities@
            } else {
                old(storage).list()
            },
            self.authorities@.len() == 0 ==> final(storage).authorities
                == old(storage).authorities,
            self.authorities@.len() > 0 ==> final(storage).authorities is Some,
            self.authorities@.len() > 0 ==> final(storage).authorities->0@ == self.authorities@,
    {
        storage.current_set_id = Some(0);
        Pallet::<T>::initialize(storage, &self.authorities);
    }
}

/// What is read from the chain is what stands there: no authorities and set 0 where nothing was
/// written.
pub proof fn storage_reads_as_written(
    authorities: AuthorityList,
    set_id: SetId,
    other: Option<AuthorityList>,
    other_set_id: Option<SetId>,
)
    ensures
        ({
            let written = Some(authorities);
            let nothing: Option<AuthorityList> = None;
            &&& (Storage { authorities: written, current_set_id: other_set_id }).list()
                == authorities@
            &&& (Storage { authorities: nothing, current_set_id: other_set_id }).list().len() == 0
            &&& (Storage { authorities: other, current_set_id: Some(set_id) }).set_number()
                == set_id
            &&& (Storage { authorities: other, current_set_id: None }).set_number() == 0
        }),
{
}

/// The pallet can hold a list just if it is no longer than the maximum: with one that it can
/// hold it can hold each shorter one, and one of just the maximum, but none longer.
pub proof fn pallet_holds_up_to_the_maximum<T: Config>(
    list: Seq<AuthorityId>,
    longer: Seq<AuthorityId>,
)
    ensures
        can_hold::<T>(longer) && list.len() <= longer.len() ==> can_hold::<T>(list),
        list.len() == T::MaxAuthorities::value() ==> can_hold::<T>(list),
        list.len() > T::MaxAuthorities::value() ==> !can_hold::<T>(list),
{
}

/// A constant stands for its number.
pub proof fn constant_stands_for_its_number<const N: u32>()
    ensures
        ConstU32::<N>::value() == N,
{
}

} // verus!
