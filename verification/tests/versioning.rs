//! The versioned administrative shell.

use bounty_escrow::Error;
use bounty_escrow::GrainlifyContract;
use bounty_escrow::INITIAL_VERSION;

const ADMIN: u64 = 1;

#[test]
fn test_init_and_get_version() {
    let mut contract = GrainlifyContract::new();
    contract.init(ADMIN).unwrap();

    let version = contract.get_version();
    assert_eq!(version, INITIAL_VERSION);
}

#[test]
fn test_set_version() {
    let mut contract = GrainlifyContract::new();
    contract.init(ADMIN).unwrap();

    let new_version = 2;
    contract.set_version(ADMIN, new_version).unwrap();

    let version = contract.get_version();
    assert_eq!(version, new_version);
}

#[test]
fn test_double_init_should_panic() {
    let mut contract = GrainlifyContract::new();
    contract.init(ADMIN).unwrap();
    let second = contract.init(ADMIN);
    assert_eq!(second, Err(Error::AlreadyInitialized));
}

#[test]
fn test_set_version_requires_admin() {
    let mut contract = GrainlifyContract::new();
    assert_eq!(contract.set_version(ADMIN, 2), Err(Error::NotInitialized));
    contract.init(ADMIN).unwrap();
    assert_eq!(contract.set_version(9, 2), Err(Error::Unauthorized));
    assert_eq!(contract.get_version(), INITIAL_VERSION);
}
