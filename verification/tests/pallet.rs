use std::marker::PhantomData;
use tendermint_finality::pallet::{Config, ConstU32, GenesisConfig, Get, Pallet, Storage};

struct Runtime;

impl Config for Runtime {
    type MaxAuthorities = ConstU32<32>;
}

fn empty() -> Storage {
    Storage { authorities: None, current_set_id: None }
}

fn genesis(authorities: Vec<[u8; 32]>) -> GenesisConfig<Runtime> {
    GenesisConfig { authorities, _config: PhantomData }
}

#[test]
fn empty_storage_reads_as_defaults() {
    assert_eq!(Pallet::<Runtime>::authorities(&empty()), Vec::<[u8; 32]>::new());
    assert_eq!(Pallet::<Runtime>::current_set_id(&empty()), 0);
}

#[test]
fn authorities_are_read_as_set() {
    let mut storage = Storage { authorities: Some(vec![[1; 32]]), current_set_id: Some(4) };
    Pallet::<Runtime>::set_authorities(&mut storage, &vec![[2; 32], [3; 32]]);
    assert_eq!(Pallet::<Runtime>::authorities(&storage), vec![[2; 32], [3; 32]]);
    assert_eq!(Pallet::<Runtime>::current_set_id(&storage), 4);
}

#[test]
fn genesis_writes_set_zero() {
    let mut storage = Storage { authorities: None, current_set_id: Some(9) };
    genesis(vec![[2; 32]]).build(&mut storage);
    assert_eq!(storage, Storage { authorities: Some(vec![[2; 32]]), current_set_id: Some(0) });
}

#[test]
fn genesis_without_authorities_writes_none() {
    let mut storage = empty();
    genesis(Vec::new()).build(&mut storage);
    assert_eq!(storage, Storage { authorities: None, current_set_id: Some(0) });
}

#[test]
fn nothing_to_initialize_changes_nothing() {
    let mut storage = Storage { authorities: Some(vec![[1; 32]]), current_set_id: Some(4) };
    Pallet::<Runtime>::initialize(&mut storage, &Vec::new());
    assert_eq!(
        storage,
        Storage { authorities: Some(vec![[1; 32]]), current_set_id: Some(4) }
    );
}

#[test]
fn maximum_is_the_number_in_the_config() {
    assert_eq!(ConstU32::<32>::get(), 32);
    assert_eq!(<Runtime as Config>::MaxAuthorities::get(), 32);
}

#[test]
fn no_more_than_the_maximum_fits() {
    assert!(Pallet::<Runtime>::fits(&Vec::new()));
    assert!(Pallet::<Runtime>::fits(&vec![[1; 32]; 32]));
    assert!(!Pallet::<Runtime>::fits(&vec![[1; 32]; 33]));
}

#[test]
fn as_many_as_the_maximum_can_be_set() {
    let mut storage = empty();
    Pallet::<Runtime>::set_authorities(&mut storage, &vec![[1; 32]; 32]);
    assert_eq!(Pallet::<Runtime>::authorities(&storage).len(), 32);
}

#[test]
fn initial_authorities_are_written() {
    let mut storage = Storage { authorities: Some(Vec::new()), current_set_id: Some(4) };
    Pallet::<Runtime>::initialize(&mut storage, &vec![[1; 32]]);
    assert_eq!(
        storage,
        Storage { authorities: Some(vec![[1; 32]]), current_set_id: Some(4) }
    );
}

#[test]
fn default_genesis_has_no_authorities() {
    assert!(GenesisConfig::<Runtime>::default().authorities.is_empty());
}
