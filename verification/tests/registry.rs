use composable_admin::error::Error;
use composable_admin::host::{Deps, Env};
use composable_admin::registry::{assert_admin, is_admin, load_admins, save_admins};
use composable_admin::storage::{load, ADMINS_KEY};
use cosmwasm_std::testing::{MockApi, MockStorage};
use cosmwasm_std::{Api, Binary, CanonicalAddr, HumanAddr, ReadonlyStorage, StdError, Storage};

type Convert<A, B> = fn(&A) -> Result<B, StdError>;

type Host = Deps<Convert<String, Vec<u8>>, Convert<Vec<u8>, String>>;

fn canonical(human: &String) -> Result<Vec<u8>, StdError> {
    MockApi::new(20).canonical_address(&HumanAddr(human.clone())).map(|c| c.0 .0)
}

fn human(canonical: &Vec<u8>) -> Result<String, StdError> {
    MockApi::new(20).human_address(&CanonicalAddr(Binary(canonical.clone()))).map(|h| h.0)
}

fn host(stored: Option<&[u8]>) -> Host {
    Deps { stored: stored.map(|b| b.to_vec()), canonical_address: canonical, human_address: human }
}

fn names(list: &[&str]) -> Vec<String> {
    list.iter().map(|s| s.to_string()).collect()
}

fn env(sender: &str) -> Env {
    Env { sender: sender.to_string() }
}

fn padded(name: &str) -> Vec<u8> {
    let mut bytes = name.as_bytes().to_vec();
    bytes.resize(20, 0);
    bytes
}

#[test]
fn admins_key_is_the_fixed_key() {
    assert_eq!(&ADMINS_KEY, b"i801onL3kf");
}

#[test]
fn load_admins_before_any_save_is_not_found() {
    let deps = host(None);
    assert_eq!(load_admins(&deps), Err(Error::NotFound));
}

#[test]
fn save_of_an_empty_list_makes_load_succeed() {
    let mut deps = host(None);
    assert_eq!(save_admins(&mut deps, &vec![]), Ok(()));
    assert_eq!(deps.stored, Some(b"[]".to_vec()));
    assert_eq!(load_admins(&deps), Ok(vec![]));
}

#[test]
fn save_writes_base64_strings_in_a_json_array() {
    let mut deps = host(None);
    assert_eq!(save_admins(&mut deps, &names(&["alice", "bob"])), Ok(()));
    assert_eq!(
        deps.stored,
        Some(br#"["YWxpY2UAAAAAAAAAAAAAAAAAAAA=","Ym9iAAAAAAAAAAAAAAAAAAAAAAA="]"#.to_vec())
    );
}

#[test]
fn save_then_load_returns_the_addresses_in_order() {
    let mut deps = host(None);
    let addresses = names(&["carol", "alice", "bob"]);
    assert_eq!(save_admins(&mut deps, &addresses), Ok(()));
    assert_eq!(load_admins(&deps), Ok(addresses));
}

#[test]
fn a_second_save_appends_to_the_first() {
    let mut deps = host(None);
    assert_eq!(save_admins(&mut deps, &names(&["alice", "bob"])), Ok(()));
    assert_eq!(save_admins(&mut deps, &names(&["carol"])), Ok(()));
    assert_eq!(load_admins(&deps), Ok(names(&["alice", "bob", "carol"])));
}

#[test]
fn saving_an_address_twice_stores_it_twice() {
    let mut deps = host(None);
    assert_eq!(save_admins(&mut deps, &names(&["alice"])), Ok(()));
    assert_eq!(save_admins(&mut deps, &names(&["alice"])), Ok(()));
    assert_eq!(
        deps.stored,
        Some(br#"["YWxpY2UAAAAAAAAAAAAAAAAAAAA=","YWxpY2UAAAAAAAAAAAAAAAAAAAA="]"#.to_vec())
    );
    assert_eq!(load_admins(&deps), Ok(names(&["alice", "alice"])));
    assert_eq!(assert_admin(&deps, &env("alice")), Ok(()));
}

#[test]
fn a_refused_address_leaves_the_stored_set_unchanged() {
    let mut deps = host(None);
    assert_eq!(save_admins(&mut deps, &names(&["alice"])), Ok(()));
    let before = deps.stored.clone();
    let r = save_admins(&mut deps, &names(&["bob", "x", "carol"]));
    assert_eq!(
        r,
        Err(Error::AddressConversion(StdError::generic_err(
            "Invalid input: human address too short"
        )))
    );
    assert_eq!(deps.stored, before);
    assert_eq!(load_admins(&deps), Ok(names(&["alice"])));
}

#[test]
fn a_refused_address_writes_nothing_to_an_empty_store() {
    let mut deps = host(None);
    let r = save_admins(&mut deps, &names(&["this address is far too long to convert"]));
    assert_eq!(
        r,
        Err(Error::AddressConversion(StdError::generic_err(
            "Invalid input: human address too long"
        )))
    );
    assert_eq!(deps.stored, None);
    assert_eq!(load_admins(&deps), Err(Error::NotFound));
}

#[test]
fn the_first_refusal_is_the_one_reported() {
    let mut deps = host(None);
    let r = save_admins(
        &mut deps,
        &names(&["alice", "this address is far too long to convert", "x"]),
    );
    assert_eq!(
        r,
        Err(Error::AddressConversion(StdError::generic_err(
            "Invalid input: human address too long"
        )))
    );
}

#[test]
fn save_starts_from_nothing_where_the_stored_value_is_unreadable() {
    let mut deps = host(Some(b"not an admin set"));
    assert!(matches!(load_admins(&deps), Err(Error::InvalidAdminSet(_))));
    assert_eq!(save_admins(&mut deps, &names(&["alice"])), Ok(()));
    assert_eq!(deps.stored, Some(br#"["YWxpY2UAAAAAAAAAAAAAAAAAAAA="]"#.to_vec()));
    assert_eq!(load_admins(&deps), Ok(names(&["alice"])));
}

#[test]
fn load_reads_the_canonical_addresses() {
    let stored = Some(br#"["aGVsbG8=","ALs9C/oA"]"#.to_vec());
    assert_eq!(load(&stored), Ok(vec![b"hello".to_vec(), vec![0u8, 187, 61, 11, 250, 0]]));
}

#[test]
fn load_of_an_absent_key_is_not_found() {
    assert_eq!(load(&None), Err(Error::NotFound));
}

#[test]
fn load_of_an_empty_set_is_an_empty_list() {
    assert_eq!(load(&Some(b"[]".to_vec())), Ok(vec![]));
}

#[test]
fn load_rejects_bytes_that_are_no_admin_set() {
    assert!(matches!(load(&Some(b"{}".to_vec())), Err(Error::InvalidAdminSet(_))));
    assert!(matches!(load(&Some(br#"["**BAD!**"]"#.to_vec())), Err(Error::InvalidAdminSet(_))));
    assert!(matches!(load(&Some(vec![])), Err(Error::InvalidAdminSet(_))));
}

#[test]
fn load_admins_fails_where_the_host_refuses_a_stored_address() {
    // "aGVsbG8=" is five bytes long, and this host wants twenty
    let deps = host(Some(br#"["YWxpY2UAAAAAAAAAAAAAAAAAAAA=","aGVsbG8="]"#));
    assert_eq!(
        load_admins(&deps),
        Err(Error::AddressConversion(StdError::generic_err(
            "Invalid input: canonical address length not correct"
        )))
    );
    assert_eq!(
        assert_admin(&deps, &env("alice")),
        Err(Error::AddressConversion(StdError::generic_err(
            "Invalid input: canonical address length not correct"
        )))
    );
}

#[test]
fn load_admins_hands_each_stored_address_to_the_host() {
    let deps = Deps {
        stored: Some(br#"["aGVsbG8=","ALs9C/oA"]"#.to_vec()),
        canonical_address: canonical,
        human_address: |c: &Vec<u8>| -> Result<String, StdError> { Ok(format!("{:?}", c)) },
    };
    assert_eq!(
        load_admins(&deps),
        Ok(names(&["[104, 101, 108, 108, 111]", "[0, 187, 61, 11, 250, 0]"]))
    );
}

#[test]
fn save_stores_what_the_host_converts_to() {
    let mut deps = Deps {
        stored: None,
        canonical_address: |h: &String| -> Result<Vec<u8>, StdError> {
            Ok(h.as_bytes().iter().rev().cloned().collect())
        },
        human_address: human,
    };
    assert_eq!(save_admins(&mut deps, &names(&["olleh"])), Ok(()));
    assert_eq!(deps.stored, Some(br#"["aGVsbG8="]"#.to_vec()));
}

#[test]
fn an_admin_passes_the_guard() {
    let mut deps = host(None);
    assert_eq!(save_admins(&mut deps, &names(&["alice", "bob", "carol"])), Ok(()));
    assert_eq!(assert_admin(&deps, &env("alice")), Ok(()));
    assert_eq!(assert_admin(&deps, &env("bob")), Ok(()));
    assert_eq!(assert_admin(&deps, &env("carol")), Ok(()));
}

#[test]
fn a_stranger_is_unauthorized() {
    let mut deps = host(None);
    assert_eq!(save_admins(&mut deps, &names(&["alice", "bob"])), Ok(()));
    assert_eq!(assert_admin(&deps, &env("mallory")), Err(Error::Unauthorized));
    assert_eq!(assert_admin(&deps, &env("ali")), Err(Error::Unauthorized));
    assert_eq!(assert_admin(&deps, &env("")), Err(Error::Unauthorized));
}

#[test]
fn the_guard_changes_nothing() {
    let mut deps = host(None);
    assert_eq!(save_admins(&mut deps, &names(&["alice"])), Ok(()));
    let before = deps.stored.clone();
    let _ = assert_admin(&deps, &env("alice"));
    let _ = assert_admin(&deps, &env("mallory"));
    assert_eq!(deps.stored, before);
}

#[test]
fn nobody_passes_the_guard_of_an_empty_set() {
    let deps = host(Some(b"[]"));
    assert_eq!(assert_admin(&deps, &env("alice")), Err(Error::Unauthorized));
}

#[test]
fn the_guard_of_an_unwritten_store_fails_with_not_found() {
    let deps = host(None);
    assert_eq!(assert_admin(&deps, &env("alice")), Err(Error::NotFound));
}

#[test]
fn is_admin_finds_an_address_at_any_position() {
    let admins = names(&["alice", "bob", "alice", "carol"]);
    assert!(is_admin(&admins, &"alice".to_string()));
    assert!(is_admin(&admins, &"bob".to_string()));
    assert!(is_admin(&admins, &"carol".to_string()));
    assert!(!is_admin(&admins, &"dave".to_string()));
    assert!(!is_admin(&admins, &"Alice".to_string()));
    assert!(!is_admin(&vec![], &"alice".to_string()));
}

#[test]
fn the_mock_host_pads_to_twenty_bytes() {
    assert_eq!(canonical(&"alice".to_string()), Ok(padded("alice")));
    assert_eq!(human(&padded("alice")), Ok("alice".to_string()));
}

#[test]
fn the_admin_value_lives_under_the_fixed_key() {
    let mut storage = MockStorage::new();
    let mut deps = host(storage.get(&ADMINS_KEY).as_deref());
    assert_eq!(deps.stored, None);
    assert_eq!(save_admins(&mut deps, &names(&["alice"])), Ok(()));
    storage.set(&ADMINS_KEY, deps.stored.as_deref().unwrap_or_default());
    assert_eq!(
        storage.get(b"i801onL3kf"),
        Some(br#"["YWxpY2UAAAAAAAAAAAAAAAAAAAA="]"#.to_vec())
    );
    let deps = host(storage.get(&ADMINS_KEY).as_deref());
    assert_eq!(load_admins(&deps), Ok(names(&["alice"])));
}
