//! What holds across calls of the registry and the guard.
//!
//! Each statement is about the outcomes that the contracts of
//! [`save_admins`](crate::registry::save_admins),
//! [`load_admins`](crate::registry::load_admins) and
//! [`assert_admin`](crate::registry::assert_admin) allow, so it holds of every
//! run of them. What a statement needs of the host's address conversions it
//! asks for by name.
use vstd::prelude::*;
use cosmwasm_std::StdError;
use crate::error::Error;
use crate::host::HostView;
use crate::dispatch::add_admins_by_default;
use crate::registry::{guard_outcome, load_outcome, save_outcome};
use crate::storage::{current_admins, decoded_admins};

verus! {

/// The host's conversions undo one another: a canonical form that it may
/// give to a human-facing address it turns back into that address, never
/// into another and never into a refusal.
pub open spec fn round_trips(host: HostView) -> bool {
    forall|human: Seq<char>, canonical: Seq<u8>, r: Result<Seq<char>, StdError>|
        #[trigger] host.may_canonicalize(human, Ok(canonical)) && #[trigger] host.may_humanize(
            canonical,
            r,
        ) ==> r == Ok::<Seq<char>, StdError>(human)
}

/// The conversion to human-facing form gives one answer to one address.
pub open spec fn humanizes_one_way(host: HostView) -> bool {
    forall|canonical: Seq<u8>, r1: Result<Seq<char>, StdError>, r2: Result<Seq<char>, StdError>|
        #[trigger] host.may_humanize(canonical, r1) && #[trigger] host.may_humanize(canonical, r2)
            ==> r1 == r2
}

/// Where the store holds the addresses `canonicals` and the host has for each
/// of them the one answer in `humans`, loading returns `humans`.
proof fn lemma_load_is_determined(
    host: HostView,
    canonicals: Seq<Seq<u8>>,
    humans: Seq<Seq<char>>,
    loaded: Result<Seq<Seq<char>>, Error>,
)
    requires
        host.stored matches Some(bytes) && decoded_admins(bytes) == Some(canonicals),
        humans.len() == canonicals.len(),
        forall|i: int, r: Result<Seq<char>, StdError>|
            0 <= i < canonicals.len() && #[trigger] host.may_humanize(canonicals[i], r) ==> r
                == Ok::<Seq<char>, StdError>(humans[i]),
        load_outcome(host, loaded),
    ensures
        loaded == Ok::<Seq<Seq<char>>, Error>(humans),
{
    match loaded {
        Ok(found) => {
            assert(host.humanizes_all(canonicals, found));
            assert forall|i: int| 0 <= i < humans.len() implies found[i] == humans[i] by {
                assert(host.may_humanize(canonicals[i], Ok(found[i])));
            }
            assert(found =~= humans);
        },
        Err(Error::AddressConversion(e)) => {
            let at = choose|at: int| #[trigger] host.humanize_fails_at(canonicals, at, e);
            assert(host.may_humanize(canonicals[at], Err(e)));
            assert(false);
        },
        Err(_) => {
            assert(false);
        },
    }
}

/// The guard follows membership. Where loading the admin set can only return
/// `admins`, a caller among them passes, and any other caller is turned away
/// as unauthorized.
pub proof fn law_guard_follows_membership(
    host: HostView,
    admins: Seq<Seq<char>>,
    sender: Seq<char>,
    r: Result<(), Error>,
)
    requires
        forall|loaded: Result<Seq<Seq<char>>, Error>| #[trigger]
            load_outcome(host, loaded) ==> loaded == Ok::<Seq<Seq<char>>, Error>(admins),
        guard_outcome(host, sender, r),
    ensures
        admins.contains(sender) ==> r is Ok,
        !admins.contains(sender) ==> r == Err::<(), Error>(Error::Unauthorized),
{
    match r {
        Ok(()) => {
            let found = choose|found: Seq<Seq<char>>| #[trigger]
                load_outcome(host, Ok(found)) && found.contains(sender);
            assert(found == admins);
        },
        Err(Error::Unauthorized) => {
            let found = choose|found: Seq<Seq<char>>| #[trigger]
                load_outcome(host, Ok(found)) && !found.contains(sender);
            assert(found == admins);
        },
        Err(e) => {
            assert(load_outcome(host, Err(e)));
            assert(false);
        },
    }
}

/// While nothing has been written, loading fails with `NotFound`: an absent
/// set is not an empty one.
pub proof fn law_load_on_unwritten_store(host: HostView, r: Result<Seq<Seq<char>>, Error>)
    requires
        host.stored is None,
        load_outcome(host, r),
    ensures
        r == Err::<Seq<Seq<char>>, Error>(Error::NotFound),
{
}

/// While nothing has been written, the guard turns every caller away with
/// `NotFound`, the error of the load, and not with `Unauthorized`.
pub proof fn law_guard_on_unwritten_store(host: HostView, sender: Seq<char>, r: Result<(), Error>)
    requires
        host.stored is None,
        guard_outcome(host, sender, r),
    ensures
        r == Err::<(), Error>(Error::NotFound),
{
    match r {
        Ok(()) => {
            let found = choose|found: Seq<Seq<char>>| #[trigger]
                load_outcome(host, Ok(found)) && found.contains(sender);
            assert(false);
        },
        Err(Error::Unauthorized) => {
            let found = choose|found: Seq<Seq<char>>| #[trigger]
                load_outcome(host, Ok(found)) && !found.contains(sender);
            assert(false);
        },
        Err(e) => {
            assert(load_outcome(host, Err(e)));
        },
    }
}

/// Nobody adds admins from outside. Where loading the admin set can only
/// return `admins`, the command of a caller who is not among them is turned
/// down as unauthorized and writes nothing, whatever addresses it names, the
/// caller's own included.
pub proof fn law_stranger_adds_nothing(
    before: HostView,
    admins: Seq<Seq<char>>,
    sender: Seq<char>,
    addresses: Seq<Seq<char>>,
    stored: Option<Seq<u8>>,
    r: Result<(), Error>,
)
    requires
        forall|loaded: Result<Seq<Seq<char>>, Error>| #[trigger]
            load_outcome(before, loaded) ==> loaded == Ok::<Seq<Seq<char>>, Error>(admins),
        !admins.contains(sender),
        add_admins_by_default(before, sender, addresses, stored, r),
    ensures
        r == Err::<(), Error>(Error::Unauthorized),
        stored == before.stored,
{
    match r {
        Ok(()) => {
            law_guard_follows_membership(before, admins, sender, Ok(()));
        },
        Err(e) => {
            if guard_outcome(before, sender, Err(e)) {
                law_guard_follows_membership(before, admins, sender, Err(e));
            } else {
                law_guard_follows_membership(before, admins, sender, Ok(()));
            }
        },
    }
}

/// A save that fails leaves the stored value as it was.
pub proof fn law_failed_save_writes_nothing(
    before: HostView,
    addresses: Seq<Seq<char>>,
    stored: Option<Seq<u8>>,
    r: Result<(), Error>,
)
    requires
        save_outcome(before, addresses, stored, r),
        r is Err,
    ensures
        stored == before.stored,
{
}

/// After a save, a load succeeds and returns the admins from before followed
/// by the addresses saved, in the order given.
///
/// `prior` is the admin set before the save in human-facing form: empty where
/// nothing readable was stored. The host's conversions must undo one another
/// and the one to human-facing form must give one answer.
pub proof fn law_load_after_save(
    before: HostView,
    prior: Seq<Seq<char>>,
    addresses: Seq<Seq<char>>,
    stored: Option<Seq<u8>>,
    loaded: Result<Seq<Seq<char>>, Error>,
)
    requires
        round_trips(before),
        humanizes_one_way(before),
        before.humanizes_all(current_admins(before.stored), prior),
        save_outcome(before, addresses, stored, Ok(())),
        load_outcome(before.with_stored(stored), loaded),
    ensures
        loaded == Ok::<Seq<Seq<char>>, Error>(prior + addresses),
{
    let current = current_admins(before.stored);
    let canonicals = choose|canonicals: Seq<Seq<u8>>|
        {
            &&& #[trigger] before.canonicalizes_all(addresses, canonicals)
            &&& stored matches Some(bytes)
            &&& decoded_admins(bytes) == Some(current + canonicals)
        };
    let after = before.with_stored(stored);
    let all = current + canonicals;
    let humans = prior + addresses;
    assert forall|i: int, r: Result<Seq<char>, StdError>|
        0 <= i < all.len() && #[trigger] after.may_humanize(all[i], r) implies r == Ok::<
        Seq<char>,
        StdError,
    >(humans[i]) by {
        assert(before.may_humanize(all[i], r));
        if i < current.len() {
            assert(before.may_humanize(current[i], Ok(prior[i])));
        } else {
            let k = i - current.len();
            assert(before.may_canonicalize(addresses[k], Ok(canonicals[k])));
        }
    }
    lemma_load_is_determined(after, all, humans, loaded);
}

/// The round trip. On a store that held no admins, a load after a save
/// returns exactly the addresses saved, in their order, provided that the
/// host's conversions undo one another.
pub proof fn law_round_trip(
    before: HostView,
    addresses: Seq<Seq<char>>,
    stored: Option<Seq<u8>>,
    loaded: Result<Seq<Seq<char>>, Error>,
)
    requires
        round_trips(before),
        current_admins(before.stored).len() == 0,
        save_outcome(before, addresses, stored, Ok(())),
        load_outcome(before.with_stored(stored), loaded),
    ensures
        loaded == Ok::<Seq<Seq<char>>, Error>(addresses),
{
    let current = current_admins(before.stored);
    let canonicals = choose|canonicals: Seq<Seq<u8>>|
        {
            &&& #[trigger] before.canonicalizes_all(addresses, canonicals)
            &&& stored matches Some(bytes)
            &&& decoded_admins(bytes) == Some(current + canonicals)
        };
    let after = before.with_stored(stored);
    assert(current + canonicals =~= canonicals);
    assert forall|i: int, r: Result<Seq<char>, StdError>|
        0 <= i < canonicals.len() && #[trigger] after.may_humanize(canonicals[i], r) implies r
        == Ok::<Seq<char>, StdError>(addresses[i]) by {
        assert(before.may_humanize(canonicals[i], r));
        assert(before.may_canonicalize(addresses[i], Ok(canonicals[i])));
    }
    lemma_load_is_determined(after, canonicals, addresses, loaded);
}

/// Saving an address twice stores it twice, and it is still an admin: after
/// the two saves a load returns the admins from before followed by the
/// address and the address again, and the guard lets that address pass.
pub proof fn law_duplicates_accumulate(
    before: HostView,
    prior: Seq<Seq<char>>,
    address: Seq<char>,
    first: Option<Seq<u8>>,
    second: Option<Seq<u8>>,
    loaded: Result<Seq<Seq<char>>, Error>,
    guarded: Result<(), Error>,
)
    requires
        round_trips(before),
        humanizes_one_way(before),
        before.humanizes_all(current_admins(before.stored), prior),
        save_outcome(before, seq![address], first, Ok(())),
        save_outcome(before.with_stored(first), seq![address], second, Ok(())),
        load_outcome(before.with_stored(second), loaded),
        guard_outcome(before.with_stored(second), address, guarded),
    ensures
        loaded == Ok::<Seq<Seq<char>>, Error>(prior + seq![address, address]),
        guarded is Ok,
{
    let once = before.with_stored(first);
    let twice = before.with_stored(second);
    let current = current_admins(before.stored);
    let c1 = choose|canonicals: Seq<Seq<u8>>|
        {
            &&& #[trigger] before.canonicalizes_all(seq![address], canonicals)
            &&& first matches Some(bytes)
            &&& decoded_admins(bytes) == Some(current + canonicals)
        };
    assert(current_admins(once.stored) == current + c1);
    let c2 = choose|canonicals: Seq<Seq<u8>>|
        {
            &&& #[trigger] once.canonicalizes_all(seq![address], canonicals)
            &&& second matches Some(bytes)
            &&& decoded_admins(bytes) == Some(current + c1 + canonicals)
        };
    let all = current + c1 + c2;
    let humans = prior + seq![address, address];
    assert(before.may_canonicalize(seq![address][0], Ok(c1[0])));
    assert(once.may_canonicalize(seq![address][0], Ok(c2[0])));
    assert(before.may_canonicalize(address, Ok(c2[0])));
    assert forall|i: int, r: Result<Seq<char>, StdError>|
        0 <= i < all.len() && #[trigger] twice.may_humanize(all[i], r) implies r == Ok::<
        Seq<char>,
        StdError,
    >(humans[i]) by {
        assert(before.may_humanize(all[i], r));
        if i < current.len() {
            assert(before.may_humanize(current[i], Ok(prior[i])));
        } else if i == current.len() {
            assert(all[i] == c1[0]);
        } else {
            assert(all[i] == c2[0]);
        }
    }
    assert forall|x: Result<Seq<Seq<char>>, Error>| #[trigger]
        load_outcome(twice, x) implies x == Ok::<Seq<Seq<char>>, Error>(humans) by {
        lemma_load_is_determined(twice, all, humans, x);
    }
    assert(humans[prior.len() as int] == address);
    law_guard_follows_membership(twice, humans, address, guarded);
}

} // verus!
