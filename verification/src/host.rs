//! What the host lends to a call: the stored value and its address conversions.
use vstd::prelude::*;
use cosmwasm_std::StdError;

verus! {

/// The host as one call sees it.
///
/// `stored` is the value under [`ADMINS_KEY`](crate::storage::ADMINS_KEY),
/// `None` while nothing has been written there. The two conversions are the
/// host's own: from a human-facing address to its canonical form and back.
/// Either may refuse an address.
pub struct Deps<C, H> {
    pub stored: Option<Vec<u8>>,
    pub canonical_address: C,
    pub human_address: H,
}

/// The invocation that is being served.
#[derive(Debug, Clone, PartialEq, Eq)]
pub struct Env {
    /// The caller, as a human-facing address.
    pub sender: String,
}

/// The host as contracts speak of it: the stored bytes, and for each
/// conversion the answers that it may give to an address.
///
/// Nothing says that a conversion gives one answer only, or that one undoes
/// the other: a contract that needs either says so.
pub struct HostView {
    pub stored: Option<Seq<u8>>,
    pub canonicalizes: spec_fn(Seq<char>, Result<Seq<u8>, StdError>) -> bool,
    pub humanizes: spec_fn(Seq<u8>, Result<Seq<char>, StdError>) -> bool,
}

impl HostView {
    /// Asked for the canonical form of `human`, the host may answer `r`.
    pub open spec fn may_canonicalize(
        self,
        human: Seq<char>,
        r: Result<Seq<u8>, StdError>,
    ) -> bool {
        (self.canonicalizes)(human, r)
    }

    /// Asked for the human-facing form of `canonical`, the host may answer `r`.
    pub open spec fn may_humanize(
        self,
        canonical: Seq<u8>,
        r: Result<Seq<char>, StdError>,
    ) -> bool {
        (self.humanizes)(canonical, r)
    }

    /// The host may convert `humans`, one after the other, into `canonicals`.
    pub open spec fn canonicalizes_all(
        self,
        humans: Seq<Seq<char>>,
        canonicals: Seq<Seq<u8>>,
    ) -> bool {
        &&& canonicals.len() == humans.len()
        &&& forall|i: int|
            0 <= i < humans.len() ==> self.may_canonicalize(
                #[trigger] humans[i],
                Ok(canonicals[i]),
            )
    }

    /// The host may convert the addresses of `humans` before position `at`
    /// and refuse the one at `at` with `e`.
    pub open spec fn canonicalize_fails_at(
        self,
        humans: Seq<Seq<char>>,
        at: int,
        e: StdError,
    ) -> bool {
        &&& 0 <= at < humans.len()
        &&& self.may_canonicalize(humans[at], Err(e))
        &&& exists|canonicals: Seq<Seq<u8>>| #[trigger]
            self.canonicalizes_all(humans.take(at), canonicals)
    }

    /// The host may convert `canonicals`, one after the other, into `humans`.
    pub open spec fn humanizes_all(
        self,
        canonicals: Seq<Seq<u8>>,
        humans: Seq<Seq<char>>,
    ) -> bool {
        &&& humans.len() == canonicals.len()
        &&& forall|i: int|
            0 <= i < canonicals.len() ==> self.may_humanize(
                #[trigger] canonicals[i],
                Ok(humans[i]),
            )
    }

    /// The host may convert the addresses of `canonicals` before position
    /// `at` and refuse the one at `at` with `e`.
    pub open spec fn humanize_fails_at(
        self,
        canonicals: Seq<Seq<u8>>,
        at: int,
        e: StdError,
    ) -> bool {
        &&& 0 <= at < canonicals.len()
        &&& self.may_humanize(canonicals[at], Err(e))
        &&& exists|humans: Seq<Seq<char>>| #[trigger]
            self.humanizes_all(canonicals.take(at), humans)
    }

    /// The same host with `stored` under the admin key.
    pub open spec fn with_stored(self, stored: Option<Seq<u8>>) -> HostView {
        HostView { stored, canonicalizes: self.canonicalizes, humanizes: self.humanizes }
    }
}

/// The bytes of each canonical address of a list.
pub open spec fn canonical_views(addresses: Seq<Vec<u8>>) -> Seq<Seq<u8>> {
    Seq::new(addresses.len(), |i: int| addresses[i]@)
}

/// The characters of each human-facing address of a list.
pub open spec fn human_views(addresses: Seq<String>) -> Seq<Seq<char>> {
    Seq::new(addresses.len(), |i: int| addresses[i]@)
}

/// The outcome of a conversion to canonical form, as contracts speak of it.
pub open spec fn canonical_view(r: Result<Vec<u8>, StdError>) -> Result<Seq<u8>, StdError> {
    match r {
        Ok(c) => Ok(c@),
        Err(e) => Err(e),
    }
}

/// The outcome of a conversion to human-facing form, as contracts speak of it.
pub open spec fn human_view(r: Result<String, StdError>) -> Result<Seq<char>, StdError> {
    match r {
        Ok(h) => Ok(h@),
        Err(e) => Err(e),
    }
}

/// `f`, called on an address that reads `human`, may return `r`.
pub open spec fn canonicalizes<C>(
    f: C,
    human: Seq<char>,
    r: Result<Seq<u8>, StdError>,
) -> bool where
    C: Fn(&String) -> Result<Vec<u8>, StdError>,
 {
    exists|h: String, out: Result<Vec<u8>, StdError>|
        h@ == human && #[trigger] call_ensures(f, (&h,), out) && canonical_view(out) == r
}

/// `f`, called on an address with the bytes `canonical`, may return `r`.
pub open spec fn humanizes<H>(
    f: H,
    canonical: Seq<u8>,
    r: Result<Seq<char>, StdError>,
) -> bool where
    H: Fn(&Vec<u8>) -> Result<String, StdError>,
 {
    exists|c: Vec<u8>, out: Result<String, StdError>|
        c@ == canonical && #[trigger] call_ensures(f, (&c,), out) && human_view(out) == r
}

impl<C, H> View for Deps<C, H> where
    C: Fn(&String) -> Result<Vec<u8>, StdError>,
    H: Fn(&Vec<u8>) -> Result<String, StdError>,
 {
    type V = HostView;

    open spec fn view(&self) -> HostView {
        HostView {
            stored: match self.stored {
                Some(bytes) => Some(bytes@),
                None => None,
            },
            canonicalizes: |human: Seq<char>, r: Result<Seq<u8>, StdError>|
                canonicalizes(self.canonical_address, human, r),
            humanizes: |canonical: Seq<u8>, r: Result<Seq<char>, StdError>|
                humanizes(self.human_address, canonical, r),
        }
    }
}

impl<C, H> Deps<C, H> where
    C: Fn(&String) -> Result<Vec<u8>, StdError>,
    H: Fn(&Vec<u8>) -> Result<String, StdError>,
 {
    /// Both conversions accept every address as an argument: they answer or
    /// refuse, and neither is partial.
    pub open spec fn callable(&self) -> bool {
        &&& forall|h: &String| #[trigger] call_requires(self.canonical_address, (h,))
        &&& forall|c: &Vec<u8>| #[trigger] call_requires(self.human_address, (c,))
    }
}

} // verus!
