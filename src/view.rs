use vstd::prelude::*;

use vstd::pervasive::{arbitrary, unreached};
use vstd::slice::slice_subrange;
use vstd::string::StringSliceAdditionalSpecFns;

use crate::error::BoundaryError;
use crate::traits::Parameter;

verus! {

/// What a view of `len` bytes at address `ptr` stands for in `memory`: the bytes
/// `[ptr, ptr + len)`, or why there are none. The end is taken in unbounded
/// arithmetic, so an end past the 32-bit address space is seen, never wrapped.
pub open spec fn resolve(len: u32, ptr: u32, memory: Seq<u8>) -> Result<Seq<u8>, BoundaryError> {
    let end = ptr + len;
    if end > u32::MAX {
        Err(BoundaryError::RangeOverflow)
    } else if end > memory.len() {
        Err(BoundaryError::OutOfBounds)
    } else {
        Ok(memory.subrange(ptr as int, end))
    }
}

/// Relies on `<[u8]>::as_ptr`: the address at which the bytes of `bytes` start.
/// It depends on where the bytes lie, so nothing is stated of it.
#[verifier::external_body]
fn address_of(bytes: &[u8]) -> usize {
    bytes.as_ptr() as usize
}

/// The two 32-bit words `(len, ptr)` of a view of `len` bytes at `addr`.
fn checked_words(len: usize, addr: usize) -> (r: Result<(u32, u32), BoundaryError>)
    ensures
        len > u32::MAX ==> r == Err::<(u32, u32), BoundaryError>(BoundaryError::LenOverflow),
        len <= u32::MAX && addr > u32::MAX ==> r == Err::<(u32, u32), BoundaryError>(
            BoundaryError::PtrOverflow,
        ),
        len <= u32::MAX && addr <= u32::MAX ==> r == Ok::<(u32, u32), BoundaryError>(
            (len as u32, addr as u32),
        ),
{
    if len > u32::MAX as usize {
        Err(BoundaryError::LenOverflow)
    } else if addr > u32::MAX as usize {
        Err(BoundaryError::PtrOverflow)
    } else {
        Ok((len as u32, addr as u32))
    }
}

/// The bytes `[ptr, ptr + len)` of `memory`. The end is computed in 64 bits, so
/// that an overflow of the 32-bit range is caught rather than wrapped.
fn resolve_in<'a>(len: u32, ptr: u32, memory: &'a [u8]) -> (r: Result<&'a [u8], BoundaryError>)
    ensures
        r is Ok ==> resolve(len, ptr, memory@) == Ok::<Seq<u8>, BoundaryError>(r->Ok_0@),
        r is Err ==> resolve(len, ptr, memory@) == Err::<Seq<u8>, BoundaryError>(r->Err_0),
{
    let end: u64 = ptr as u64 + len as u64;
    if end > u32::MAX as u64 {
        Err(BoundaryError::RangeOverflow)
    } else if end > memory.len() as u64 {
        Err(BoundaryError::OutOfBounds)
    } else {
        Ok(slice_subrange(memory, ptr as usize, end as usize))
    }
}

/// An FFI-safe `&str` passed from the guest side: the length and the start
/// address of the a string, each as a 32-bit word, length first.
///
/// A view owns nothing: it stands for bytes of the guest's memory, and is
/// resolved against that memory during the call in which it was made.
#[derive(Clone, Copy, Debug, PartialEq, Eq, Structural)]
pub struct GuestStringView {
    len: u32,
    ptr: u32,
}

impl GuestStringView {
    /// The length word.
    pub closed spec fn spec_len(self) -> u32 {
        self.len
    }

    /// The address word.
    pub closed spec fn spec_ptr(self) -> u32 {
        self.ptr
    }

    /// The view of a string of `len` bytes at address `addr`, where both fit in 32 bits.
    pub fn try_from_parts(len: usize, addr: usize) -> (r: Result<Self, BoundaryError>)
        ensures
            len > u32::MAX ==> r == Err::<Self, BoundaryError>(BoundaryError::LenOverflow),
            len <= u32::MAX && addr > u32::MAX ==> r == Err::<Self, BoundaryError>(
                BoundaryError::PtrOverflow,
            ),
            len <= u32::MAX && addr <= u32::MAX ==> r is Ok && r->Ok_0.spec_len() == len
                && r->Ok_0.spec_ptr() == addr,
    {
        match checked_words(len, addr) {
            Ok((len, ptr)) => Ok(GuestStringView { len, ptr }),
            Err(e) => Err(e),
        }
    }

    /// Creates the view of `s`. A length beyond 32 bits is refused with
    /// `LenOverflow`; otherwise the view records the length, or, where the bytes
    /// start beyond the 32-bit address space, the call fails with `PtrOverflow`.
    pub fn new(s: &str) -> (r: Result<Self, BoundaryError>)
        ensures
            s.spec_bytes().len() > u32::MAX ==> r == Err::<Self, BoundaryError>(
                BoundaryError::LenOverflow,
            ),
            s.spec_bytes().len() <= u32::MAX ==> (r is Ok && r->Ok_0.spec_len()
                == s.spec_bytes().len()) || r == Err::<Self, BoundaryError>(
                BoundaryError::PtrOverflow,
            ),
    {
        let bytes: &[u8] = s.as_bytes();
        let len: usize = bytes.len();
        if len > u32::MAX as usize {
            return Err(BoundaryError::LenOverflow);
        }
        Self::try_from_parts(len, address_of(bytes))
    }

    /// The length word.
    pub fn len(&self) -> (r: u32)
        ensures
            r == self.spec_len(),
    {
        self.len
    }

    /// The address word.
    pub fn ptr(&self) -> (r: u32)
        ensures
            r == self.spec_ptr(),
    {
        self.ptr
    }

    /// The bytes `[ptr, ptr + len)` of the guest memory `memory`, that is, the UTF-8 bytes of the string that the guest passed.
    /// Fails with `RangeOverflow` where `ptr + len` passes the 32-bit range, and
    /// with `OutOfBounds` where it passes the end of `memory`; never with a
    /// shortened or wrapped range.
    pub fn as_slice<'a>(self, memory: &'a [u8]) -> (r: Result<&'a [u8], BoundaryError>)
        ensures
            r is Ok ==> resolve(self.spec_len(), self.spec_ptr(), memory@) == Ok::<
                Seq<u8>,
                BoundaryError,
            >(r->Ok_0@),
            r is Err ==> resolve(self.spec_len(), self.spec_ptr(), memory@) == Err::<
                Seq<u8>,
                BoundaryError,
            >(r->Err_0),
    {
        resolve_in(self.len, self.ptr, memory)
    }
}

/// A guest `&str` crosses as its view. The host never makes a guest `&str`
/// from a view: `from_abi` demands `rebuildable()`, which is false here, so no
/// verified caller can reach it.
impl<'a> Parameter for &'a str {
    type Host = GuestStringView;

    type Abi = GuestStringView;

    open spec fn encodes(self, abi: GuestStringView) -> bool {
        abi.spec_len() == self.spec_bytes().len()
    }

    open spec fn refuses(self, e: BoundaryError) -> bool {
        if self.spec_bytes().len() > u32::MAX {
            e == BoundaryError::LenOverflow
        } else {
            e == BoundaryError::PtrOverflow
        }
    }

    open spec fn rebuildable() -> bool {
        false
    }

    open spec fn rebuilt(abi: GuestStringView) -> Self {
        arbitrary()
    }

    open spec fn lossless(self) -> bool {
        false
    }

    fn into_abi(self) -> (r: Result<GuestStringView, BoundaryError>) {
        GuestStringView::new(self)
    }

    fn from_abi(abi: GuestStringView) -> (r: Self) {
        unreached()
    }

    proof fn lemma_round_trip(self, abi: GuestStringView) {
    }
}

/// An FFI-safe `&[u8]` passed from the guest side: the length and the start
/// address of the a byte slice, each as a 32-bit word, length first.
///
/// A view owns nothing: it stands for bytes of the guest's memory, and is
/// resolved against that memory during the call in which it was made.
#[derive(Clone, Copy, Debug, PartialEq, Eq, Structural)]
pub struct GuestMemoryView {
    len: u32,
    ptr: u32,
}

impl GuestMemoryView {
    /// The length word.
    pub closed spec fn spec_len(self) -> u32 {
        self.len
    }

    /// The address word.
    pub closed spec fn spec_ptr(self) -> u32 {
        self.ptr
    }

    /// The view of a byte slice of `len` bytes at address `addr`, where both fit in 32 bits.
    pub fn try_from_parts(len: usize, addr: usize) -> (r: Result<Self, BoundaryError>)
        ensures
            len > u32::MAX ==> r == Err::<Self, BoundaryError>(BoundaryError::LenOverflow),
            len <= u32::MAX && addr > u32::MAX ==> r == Err::<Self, BoundaryError>(
                BoundaryError::PtrOverflow,
            ),
            len <= u32::MAX && addr <= u32::MAX ==> r is Ok && r->Ok_0.spec_len() == len
                && r->Ok_0.spec_ptr() == addr,
    {
        match checked_words(len, addr) {
            Ok((len, ptr)) => Ok(GuestMemoryView { len, ptr }),
            Err(e) => Err(e),
        }
    }

    /// Creates the view of `s`. A length beyond 32 bits is refused with
    /// `LenOverflow`; otherwise the view records the length, or, where the bytes
    /// start beyond the 32-bit address space, the call fails with `PtrOverflow`.
    pub fn new(s: &[u8]) -> (r: Result<Self, BoundaryError>)
        ensures
            s@.len() > u32::MAX ==> r == Err::<Self, BoundaryError>(
                BoundaryError::LenOverflow,
            ),
            s@.len() <= u32::MAX ==> (r is Ok && r->Ok_0.spec_len()
                == s@.len()) || r == Err::<Self, BoundaryError>(
                BoundaryError::PtrOverflow,
            ),
    {
        let bytes: &[u8] = s;
        let len: usize = bytes.len();
        if len > u32::MAX as usize {
            return Err(BoundaryError::LenOverflow);
        }
        Self::try_from_parts(len, address_of(bytes))
    }

    /// The length word.
    pub fn len(&self) -> (r: u32)
        ensures
            r == self.spec_len(),
    {
        self.len
    }

    /// The address word.
    pub fn ptr(&self) -> (r: u32)
        ensures
            r == self.spec_ptr(),
    {
        self.ptr
    }

    /// The bytes `[ptr, ptr + len)` of the guest memory `memory`, that is, the slice that the guest passed.
    /// Fails with `RangeOverflow` where `ptr + len` passes the 32-bit range, and
    /// with `OutOfBounds` where it passes the end of `memory`; never with a
    /// shortened or wrapped range.
    pub fn as_str<'a>(self, memory: &'a [u8]) -> (r: Result<&'a [u8], BoundaryError>)
        ensures
            r is Ok ==> resolve(self.spec_len(), self.spec_ptr(), memory@) == Ok::<
                Seq<u8>,
                BoundaryError,
            >(r->Ok_0@),
            r is Err ==> resolve(self.spec_len(), self.spec_ptr(), memory@) == Err::<
                Seq<u8>,
                BoundaryError,
            >(r->Err_0),
    {
        resolve_in(self.len, self.ptr, memory)
    }
}

/// A guest `&[u8]` crosses as its view. The host never makes a guest `&[u8]`
/// from a view: `from_abi` demands `rebuildable()`, which is false here, so no
/// verified caller can reach it.
impl<'a> Parameter for &'a [u8] {
    type Host = GuestMemoryView;

    type Abi = GuestMemoryView;

    open spec fn encodes(self, abi: GuestMemoryView) -> bool {
        abi.spec_len() == self@.len()
    }

    open spec fn refuses(self, e: BoundaryError) -> bool {
        if self@.len() > u32::MAX {
            e == BoundaryError::LenOverflow
        } else {
            e == BoundaryError::PtrOverflow
        }
    }

    open spec fn rebuildable() -> bool {
        false
    }

    open spec fn rebuilt(abi: GuestMemoryView) -> Self {
        arbitrary()
    }

    open spec fn lossless(self) -> bool {
        false
    }

    fn into_abi(self) -> (r: Result<GuestMemoryView, BoundaryError>) {
        GuestMemoryView::new(self)
    }

    fn from_abi(abi: GuestMemoryView) -> (r: Self) {
        unreached()
    }

    proof fn lemma_round_trip(self, abi: GuestMemoryView) {
    }
}

} // verus!
