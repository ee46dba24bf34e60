use composable_admin::error::Error;
use cosmwasm_std::StdError;

#[test]
fn unauthorized_becomes_the_hosts_unauthorized() {
    assert_eq!(Error::Unauthorized.into_std(), StdError::unauthorized());
}

#[test]
fn not_found_becomes_the_missing_key_error_of_the_load() {
    let e = Error::NotFound.into_std();
    match e {
        StdError::SerializeErr { source, msg, .. } => {
            assert_eq!(source, "load");
            assert_eq!(msg, "key not found");
        }
        other => panic!("unexpected error: {:?}", other),
    }
}

#[test]
fn errors_of_the_host_come_back_untouched() {
    assert_eq!(
        Error::AddressConversion(StdError::generic_err("no such address")).into_std(),
        StdError::generic_err("no such address")
    );
    assert_eq!(
        Error::InvalidAdminSet(StdError::parse_err("admins", "bad")).into_std(),
        StdError::parse_err("admins", "bad")
    );
    assert_eq!(
        Error::Serialize(StdError::serialize_err("admins", "bad")).into_std(),
        StdError::serialize_err("admins", "bad")
    );
}

#[test]
fn errors_compare_by_kind_and_payload() {
    assert_eq!(Error::Unauthorized, Error::Unauthorized);
    assert_ne!(Error::Unauthorized, Error::NotFound);
    assert_ne!(
        Error::AddressConversion(StdError::generic_err("a")),
        Error::AddressConversion(StdError::generic_err("b"))
    );
    assert_ne!(
        Error::AddressConversion(StdError::generic_err("a")),
        Error::InvalidAdminSet(StdError::generic_err("a"))
    );
}
