//! The two messages of the module and the handlers that serve them.
//!
//! A handler is a value that the host passes in. The ones given here do what
//! the registry and the guard prescribe; a host that wants something else
//! passes a handler of its own, which may still call [`assert_admin`],
//! [`save_admins`] and [`load_admins`] for the parts it keeps.
use vstd::prelude::*;
use cosmwasm_std::StdError;
use crate::error::Error;
use crate::host::{human_views, Deps, Env, HostView};
use crate::registry::{
    assert_admin, guard_outcome, load_admins, load_outcome, save_admins, save_outcome,
};

verus! {

/// The commands. On the wire the variant is `add_admins`, with the one field
/// `addresses`.
#[derive(Debug, Clone, PartialEq)]
pub enum MultiAdminHandleMsg {
    /// Adds the addresses, given in human-facing form, to the admin set.
    AddAdmins { addresses: Vec<String> },
}

/// The queries. On the wire the variant is `admins`, without fields.
#[derive(Debug, Clone, PartialEq)]
pub enum MultiAdminQueryMsg {
    /// Lists the admin set.
    Admins,
}

/// The answer to [`MultiAdminQueryMsg::Admins`]: the admins in human-facing
/// form, in the order stored, duplicates included.
#[derive(Debug, Clone, PartialEq)]
pub struct MultiAdminQueryResponse {
    pub addresses: Vec<String>,
}

/// What serving `AddAdmins` does by default: `stored` is the value under the
/// admin key afterwards, `r` what is returned.
///
/// The caller must pass the guard, and only then are the addresses saved.
/// Whatever fails, its error is the result and the stored value is the one
/// from before.
pub open spec fn add_admins_by_default(
    before: HostView,
    sender: Seq<char>,
    addresses: Seq<Seq<char>>,
    stored: Option<Seq<u8>>,
    r: Result<(), Error>,
) -> bool {
    match r {
        Ok(()) => guard_outcome(before, sender, Ok(())) && save_outcome(
            before,
            addresses,
            stored,
            Ok(()),
        ),
        Err(e) => {
            &&& stored == before.stored
            &&& guard_outcome(before, sender, Err(e)) || (guard_outcome(before, sender, Ok(()))
                && save_outcome(before, addresses, stored, Err(e)))
        },
    }
}

/// The view of what a query handler returns.
pub open spec fn response_view(r: Result<MultiAdminQueryResponse, Error>) -> Result<
    Seq<Seq<char>>,
    Error,
> {
    match r {
        Ok(response) => Ok(human_views(response.addresses@)),
        Err(e) => Err(e),
    }
}

/// Serves the commands.
pub trait MultiAdminHandle {
    /// What this handler may do with `AddAdmins`: `stored` is the value under
    /// the admin key afterwards, `r` what it returns. A handler that says
    /// nothing here may do anything.
    open spec fn add_admins_outcome(
        &self,
        before: HostView,
        sender: Seq<char>,
        addresses: Seq<Seq<char>>,
        stored: Option<Seq<u8>>,
        r: Result<(), Error>,
    ) -> bool {
        true
    }

    /// Serves `AddAdmins` for the caller of `env`.
    fn add_admins<C, H>(&self, deps: &mut Deps<C, H>, env: Env, addresses: Vec<String>) -> (r:
        Result<(), Error>) where
        C: Fn(&String) -> Result<Vec<u8>, StdError>,
        H: Fn(&Vec<u8>) -> Result<String, StdError>,

        requires
            old(deps).callable(),
        ensures
            final(deps).canonical_address == old(deps).canonical_address,
            final(deps).human_address == old(deps).human_address,
            self.add_admins_outcome(
                old(deps)@,
                env.sender@,
                human_views(addresses@),
                final(deps)@.stored,
                r,
            ),
    ;
}

/// Serves the queries.
pub trait MultiAdminQuery {
    /// What this handler may answer to `Admins`. A handler that says nothing
    /// here may answer anything.
    open spec fn query_admins_outcome(
        &self,
        host: HostView,
        r: Result<Seq<Seq<char>>, Error>,
    ) -> bool {
        true
    }

    /// Serves `Admins`. Any caller may ask.
    fn query_admins<C, H>(&self, deps: &Deps<C, H>) -> (r: Result<
        MultiAdminQueryResponse,
        Error,
    >) where
        C: Fn(&String) -> Result<Vec<u8>, StdError>,
        H: Fn(&Vec<u8>) -> Result<String, StdError>,

        requires
            deps.callable(),
        ensures
            self.query_admins_outcome(deps@, response_view(r)),
    ;
}

/// The command handler that does what the registry prescribes.
pub struct DefaultHandleImpl;

impl MultiAdminHandle for DefaultHandleImpl {
    open spec fn add_admins_outcome(
        &self,
        before: HostView,
        sender: Seq<char>,
        addresses: Seq<Seq<char>>,
        stored: Option<Seq<u8>>,
        r: Result<(), Error>,
    ) -> bool {
        add_admins_by_default(before, sender, addresses, stored, r)
    }

    fn add_admins<C, H>(&self, deps: &mut Deps<C, H>, env: Env, addresses: Vec<String>) -> (r:
        Result<(), Error>) where
        C: Fn(&String) -> Result<Vec<u8>, StdError>,
        H: Fn(&Vec<u8>) -> Result<String, StdError>,
     {
        assert_admin(deps, &env)?;
        save_admins(deps, &addresses)?;
        Ok(())
    }
}

/// The query handler that does what the registry prescribes.
pub struct DefaultQueryImpl;

impl MultiAdminQuery for DefaultQueryImpl {
    open spec fn query_admins_outcome(
        &self,
        host: HostView,
        r: Result<Seq<Seq<char>>, Error>,
    ) -> bool {
        load_outcome(host, r)
    }

    fn query_admins<C, H>(&self, deps: &Deps<C, H>) -> (r: Result<
        MultiAdminQueryResponse,
        Error,
    >) where
        C: Fn(&String) -> Result<Vec<u8>, StdError>,
        H: Fn(&Vec<u8>) -> Result<String, StdError>,
     {
        let addresses = load_admins(deps)?;
        Ok(MultiAdminQueryResponse { addresses })
    }
}

/// Hands a command to `handle`.
pub fn multi_admin_handle<C, H, M>(
    deps: &mut Deps<C, H>,
    env: Env,
    msg: MultiAdminHandleMsg,
    handle: M,
) -> (r: Result<(), Error>) where
    C: Fn(&String) -> Result<Vec<u8>, StdError>,
    H: Fn(&Vec<u8>) -> Result<String, StdError>,
    M: MultiAdminHandle,

    requires
        old(deps).callable(),
    ensures
        final(deps).canonical_address == old(deps).canonical_address,
        final(deps).human_address == old(deps).human_address,
        match msg {
            MultiAdminHandleMsg::AddAdmins { addresses } => handle.add_admins_outcome(
                old(deps)@,
                env.sender@,
                human_views(addresses@),
                final(deps)@.stored,
                r,
            ),
        },
{
    match msg {
        MultiAdminHandleMsg::AddAdmins { addresses } => handle.add_admins(deps, env, addresses),
    }
}

/// Hands a query to `query`.
pub fn multi_admin_query<C, H, Q>(deps: &Deps<C, H>, msg: MultiAdminQueryMsg, query: Q) -> (r:
    Result<MultiAdminQueryResponse, Error>) where
    C: Fn(&String) -> Result<Vec<u8>, StdError>,
    H: Fn(&Vec<u8>) -> Result<String, StdError>,
    Q: MultiAdminQuery,

    requires
        deps.callable(),
    ensures
        match msg {
            MultiAdminQueryMsg::Admins => query.query_admins_outcome(deps@, response_view(r)),
        },
{
    match msg {
        MultiAdminQueryMsg::Admins => query.query_admins(deps),
    }
}

} // verus!
