use vstd::prelude::*;

use crate::error::BoundaryError;

verus! {

/// A single guest-side parameter which can be moved across the guest/host boundary.
pub trait Parameter: Sized {
    /// The host-side logical type.
    type Host;

    /// The wire type that crosses the boundary.
    type Abi: Abi<Self::Host>;

    /// `abi` is a wire form of `self`.
    spec fn encodes(self, abi: Self::Abi) -> bool;

    /// `into_abi` may refuse `self` with `e`.
    spec fn refuses(self, e: BoundaryError) -> bool;

    /// The host may rebuild guest values of this type from their wire form.
    spec fn rebuildable() -> bool;

    /// The guest value that `from_abi` rebuilds from `abi`.
    spec fn rebuilt(abi: Self::Abi) -> Self;

    /// The wire form of `self` keeps all of it.
    spec fn lossless(self) -> bool;

    fn into_abi(self) -> (r: Result<Self::Abi, BoundaryError>)
        ensures
            r is Ok ==> Self::encodes(self, r->Ok_0),
            r is Err ==> Self::refuses(self, r->Err_0),
    ;

    fn from_abi(abi: Self::Abi) -> (r: Self)
        requires
            Self::rebuildable(),
        ensures
            r == Self::rebuilt(abi),
    ;

    /// A value whose wire form keeps all of it is rebuilt as it was.
    proof fn lemma_round_trip(self, abi: Self::Abi)
        requires
            Self::rebuildable(),
            self.lossless(),
            Self::encodes(self, abi),
        ensures
            Self::rebuilt(abi) == self,
    ;
}

/// A wire type, convertible to and from the host-side logical type `Host`.
pub trait Abi<Host>: Sized {
    /// The host value that `into_host` gives for `self`.
    spec fn to_host(self) -> Host;

    /// The wire value that `from_host` gives for `host`.
    spec fn of_host(host: Host) -> Self;

    /// `host` fits in the wire type.
    spec fn carries(host: Host) -> bool;

    fn into_host(self) -> (r: Host)
        ensures
            r == Self::to_host(self),
    ;

    fn from_host(host: Host) -> (r: Self)
        ensures
            r == Self::of_host(host),
    ;

    /// A host value that fits in the wire type comes back unchanged.
    proof fn lemma_host_round_trip(host: Host)
        requires
            Self::carries(host),
        ensures
            Self::to_host(Self::of_host(host)) == host,
    ;
}

/// Where the wire type is the host type itself, both conversions are the identity.
impl<T> Abi<T> for T {
    open spec fn to_host(self) -> T {
        self
    }

    open spec fn of_host(host: T) -> T {
        host
    }

    open spec fn carries(host: T) -> bool {
        true
    }

    fn into_host(self) -> (r: T) {
        self
    }

    fn from_host(host: T) -> (r: T) {
        host
    }

    proof fn lemma_host_round_trip(host: T) {
    }
}

/// A parameter list that can be shared between a guest and a host: every
/// parameter type in it is a [`Parameter`]. A list of up to eight parameters is
/// written as the tuple of their types.
pub trait Function {}

impl<T1: Parameter> Function for (T1,) {}

impl<T1: Parameter, T2: Parameter> Function for (T1, T2) {}

impl<T1: Parameter, T2: Parameter, T3: Parameter> Function for (T1, T2, T3) {}

impl<T1: Parameter, T2: Parameter, T3: Parameter, T4: Parameter> Function for (T1, T2, T3, T4) {}

impl<
    T1: Parameter,
    T2: Parameter,
    T3: Parameter,
    T4: Parameter,
    T5: Parameter,
> Function for (T1, T2, T3, T4, T5) {}

impl<
    T1: Parameter,
    T2: Parameter,
    T3: Parameter,
    T4: Parameter,
    T5: Parameter,
    T6: Parameter,
> Function for (T1, T2, T3, T4, T5, T6) {}

impl<
    T1: Parameter,
    T2: Parameter,
    T3: Parameter,
    T4: Parameter,
    T5: Parameter,
    T6: Parameter,
    T7: Parameter,
> Function for (T1, T2, T3, T4, T5, T6, T7) {}

impl<
    T1: Parameter,
    T2: Parameter,
    T3: Parameter,
    T4: Parameter,
    T5: Parameter,
    T6: Parameter,
    T7: Parameter,
    T8: Parameter,
> Function for (T1, T2, T3, T4, T5, T6, T7, T8) {}

} // verus!
