//! The admin registry and the guard built on it.
use vstd::prelude::*;
use cosmwasm_std::StdError;
use crate::error::Error;
use crate::host::{canonical_views, human_views, Deps, Env, HostView};
use crate::storage::{current_admins, decoded_admins, encode_admins, encoded_admins, load};

verus! {

/// What [`save_admins`] may do: `stored` is the value under the admin key
/// afterwards, `r` what the call returns.
///
/// It succeeds exactly when the host converts every address and the extended
/// set can be encoded. The set written is the one stored before, read as
/// [`current_admins`] reads it, followed by the new addresses in the order
/// given; nothing is left out for being there already. What is written reads
/// back as that set. On any failure the stored value is the one from before.
pub open spec fn save_outcome(
    before: HostView,
    addresses: Seq<Seq<char>>,
    stored: Option<Seq<u8>>,
    r: Result<(), Error>,
) -> bool {
    match r {
        Ok(()) => exists|canonicals: Seq<Seq<u8>>|
            {
                &&& #[trigger] before.canonicalizes_all(addresses, canonicals)
                &&& stored matches Some(bytes)
                &&& encoded_admins(current_admins(before.stored) + canonicals) == Some(bytes)
                &&& decoded_admins(bytes) == Some(current_admins(before.stored) + canonicals)
            },
        Err(Error::AddressConversion(e)) => {
            &&& stored == before.stored
            &&& exists|at: int| #[trigger] before.canonicalize_fails_at(addresses, at, e)
        },
        Err(Error::Serialize(_)) => {
            &&& stored == before.stored
            &&& exists|canonicals: Seq<Seq<u8>>|
                {
                    &&& #[trigger] before.canonicalizes_all(addresses, canonicals)
                    &&& encoded_admins(current_admins(before.stored) + canonicals) is None
                }
        },
        Err(_) => false,
    }
}

/// What [`load_admins`] may return.
///
/// Nothing stored is `NotFound`, and a stored value that is no admin set is
/// `InvalidAdminSet`: neither is read as an empty set. Otherwise the stored
/// addresses come back in human-facing form, in the order stored, duplicates
/// included, unless the host refuses one of them.
pub open spec fn load_outcome(host: HostView, r: Result<Seq<Seq<char>>, Error>) -> bool {
    match host.stored {
        None => r == Err::<Seq<Seq<char>>, Error>(Error::NotFound),
        Some(bytes) => match decoded_admins(bytes) {
            None => r matches Err(Error::InvalidAdminSet(_)),
            Some(admins) => match r {
                Ok(humans) => host.humanizes_all(admins, humans),
                Err(Error::AddressConversion(e)) => exists|at: int| #[trigger]
                    host.humanize_fails_at(admins, at, e),
                Err(_) => false,
            },
        },
    }
}

/// What [`assert_admin`] may return for the caller `sender`.
///
/// A failure to load the admin set is handed on as it is. With the set
/// loaded, the caller passes exactly when it is among the addresses, at any
/// position and however often.
pub open spec fn guard_outcome(host: HostView, sender: Seq<char>, r: Result<(), Error>) -> bool {
    match r {
        Ok(()) => exists|admins: Seq<Seq<char>>| #[trigger]
            load_outcome(host, Ok(admins)) && admins.contains(sender),
        Err(Error::Unauthorized) => exists|admins: Seq<Seq<char>>| #[trigger]
            load_outcome(host, Ok(admins)) && !admins.contains(sender),
        Err(e) => load_outcome(host, Err(e)),
    }
}

/// The view of what [`load_admins`] returns.
pub open spec fn loaded_view(r: Result<Vec<String>, Error>) -> Result<Seq<Seq<char>>, Error> {
    match r {
        Ok(humans) => Ok(human_views(humans@)),
        Err(e) => Err(e),
    }
}

/// Adds `addresses` to the admin set and writes the set back.
///
/// The set starts from what is stored, or from nothing where the key is
/// absent or unreadable. Each address is converted to canonical form; the
/// first refusal ends the call with nothing written.
pub fn save_admins<C, H>(deps: &mut Deps<C, H>, addresses: &Vec<String>) -> (r: Result<
    (),
    Error,
>) where
    C: Fn(&String) -> Result<Vec<u8>, StdError>,
    H: Fn(&Vec<u8>) -> Result<String, StdError>,

    requires
        old(deps).callable(),
    ensures
        final(deps).canonical_address == old(deps).canonical_address,
        final(deps).human_address == old(deps).human_address,
        r is Err ==> final(deps).stored == old(deps).stored,
        final(deps)@ == old(deps)@.with_stored(final(deps)@.stored),
        save_outcome(old(deps)@, human_views(addresses@), final(deps)@.stored, r),
{
    let ghost before = *deps;
    let ghost host = before@;
    let ghost humans = human_views(addresses@);
    let mut admins: Vec<Vec<u8>> = match load(&deps.stored) {
        Ok(admins) => admins,
        Err(_) => Vec::new(),
    };
    let ghost current = canonical_views(admins@);
    assert(current =~= current_admins(host.stored));
    let ghost mut added: Seq<Seq<u8>> = Seq::empty();
    let mut i: usize = 0;
    while i < addresses.len()
        invariant
            *deps == before,
            before == *old(deps),
            before.callable(),
            host == before@,
            current == current_admins(host.stored),
            humans == human_views(addresses@),
            i <= addresses.len(),
            added.len() == i,
            canonical_views(admins@) =~= current + added,
            forall|j: int|
                0 <= j < i ==> host.may_canonicalize(#[trigger] humans[j], Ok(added[j])),
        decreases addresses.len() - i,
    {
        match (deps.canonical_address)(&addresses[i]) {
            Ok(canonical) => {
                proof {
                    assert(host.may_canonicalize(humans[i as int], Ok(canonical@))) by {
                        let out = Ok::<Vec<u8>, StdError>(canonical);
                        assert(call_ensures(
                            before.canonical_address,
                            (&addresses[i as int],),
                            out,
                        ));
                    }
                }
                let ghost before_push = admins@;
                let ghost c = canonical@;
                assert(canonical_views(before_push).len() == before_push.len());
                admins.push(canonical);
                proof {
                    assert forall|j: int| 0 <= j < admins@.len() implies canonical_views(
                        admins@,
                    )[j] == (current + added.push(c))[j] by {
                        if j < before_push.len() {
                            assert(canonical_views(before_push)[j] == before_push[j]@);
                        }
                    }
                    added = added.push(c);
                }
            },
            Err(e) => {
                proof {
                    assert(host.may_canonicalize(humans[i as int], Err(e))) by {
                        let out = Err::<Vec<u8>, StdError>(e);
                        assert(call_ensures(
                            before.canonical_address,
                            (&addresses[i as int],),
                            out,
                        ));
                    }
                    assert(host.canonicalizes_all(humans.take(i as int), added));
                    assert(host.canonicalize_fails_at(humans, i as int, e));
                    // what is returned carries the host's error itself
                    let ghost r: Result<(), Error> = Err(Error::AddressConversion(e));
                    assert(r matches Err(Error::AddressConversion(x)) && x == e);
                }
                return Err(Error::AddressConversion(e));
            },
        }
        i += 1;
    }
    assert(host.canonicalizes_all(humans, added));
    match encode_admins(&admins) {
        Ok(bytes) => {
            deps.stored = Some(bytes);
            Ok(())
        },
        Err(e) => Err(Error::Serialize(e)),
    }
}

/// Returns the admin set in human-facing form, in the order stored.
///
/// Fails with `NotFound` while nothing has been written, unlike
/// [`save_admins`], which starts from an empty set then. One address that the
/// host refuses fails the whole call.
pub fn load_admins<C, H>(deps: &Deps<C, H>) -> (r: Result<Vec<String>, Error>) where
    C: Fn(&String) -> Result<Vec<u8>, StdError>,
    H: Fn(&Vec<u8>) -> Result<String, StdError>,

    requires
        deps.callable(),
    ensures
        load_outcome(deps@, loaded_view(r)),
{
    let admins = load(&deps.stored)?;
    let ghost canonicals = canonical_views(admins@);
    let mut result: Vec<String> = Vec::with_capacity(admins.len());
    let mut i: usize = 0;
    while i < admins.len()
        invariant
            deps.callable(),
            deps.stored matches Some(bytes) && decoded_admins(bytes@) == Some(canonicals),
            canonicals == canonical_views(admins@),
            i <= admins.len(),
            result.len() == i,
            forall|j: int|
                0 <= j < i ==> deps@.may_humanize(
                    #[trigger] canonicals[j],
                    Ok(human_views(result@)[j]),
                ),
        decreases admins.len() - i,
    {
        match (deps.human_address)(&admins[i]) {
            Ok(human) => {
                proof {
                    assert(deps@.may_humanize(canonicals[i as int], Ok(human@))) by {
                        let out = Ok::<String, StdError>(human);
                        assert(call_ensures(deps.human_address, (&admins[i as int],), out));
                    }
                }
                result.push(human);
            },
            Err(e) => {
                proof {
                    assert(deps@.may_humanize(canonicals[i as int], Err(e))) by {
                        let out = Err::<String, StdError>(e);
                        assert(call_ensures(deps.human_address, (&admins[i as int],), out));
                    }
                    assert(deps@.humanizes_all(canonicals.take(i as int), human_views(result@)));
                    assert(deps@.humanize_fails_at(canonicals, i as int, e));
                    // what is returned carries the host's error itself
                    let ghost r: Result<Seq<Seq<char>>, Error> = Err(Error::AddressConversion(e));
                    assert(r matches Err(Error::AddressConversion(x)) && x == e);
                    assert(decoded_admins(deps@.stored->Some_0)->Some_0 == canonicals);
                }
                return Err(Error::AddressConversion(e));
            },
        }
        i += 1;
    }
    assert(deps@.humanizes_all(canonicals, human_views(result@)));
    Ok(result)
}

/// Whether `address` is among `admins`, at any position.
pub fn is_admin(admins: &Vec<String>, address: &String) -> (r: bool)
    ensures
        r == human_views(admins@).contains(address@),
{
    let mut i: usize = 0;
    while i < admins.len()
        invariant
            i <= admins.len(),
            forall|j: int| 0 <= j < i ==> #[trigger] human_views(admins@)[j] != address@,
        decreases admins.len() - i,
    {
        if admins[i] == *address {
            assert(human_views(admins@)[i as int] == address@);
            return true;
        }
        i += 1;
    }
    false
}

/// The guard: lets the caller of `env` pass only if it is an admin.
///
/// Reads the admin set and changes nothing. A set that cannot be loaded
/// denies the caller with the error of the load; a caller who is not in the
/// loaded set is denied with `Unauthorized`.
pub fn assert_admin<C, H>(deps: &Deps<C, H>, env: &Env) -> (r: Result<(), Error>) where
    C: Fn(&String) -> Result<Vec<u8>, StdError>,
    H: Fn(&Vec<u8>) -> Result<String, StdError>,

    requires
        deps.callable(),
    ensures
        guard_outcome(deps@, env.sender@, r),
{
    let admins = load_admins(deps)?;
    assert(load_outcome(deps@, Ok(human_views(admins@))));
    if is_admin(&admins, &env.sender) {
        return Ok(());
    }
    Err(Error::Unauthorized)
}

} // verus!
