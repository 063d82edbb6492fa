use vstd::prelude::*;

use vstd::string::StringSliceAdditionalSpecFns;

use crate::error::BoundaryError;
use crate::ptr::{ConstPtr, MutPtr, Pointee};
use crate::traits::{Abi, Parameter};
use crate::view::{resolve, GuestMemoryView, GuestStringView};

verus! {

/// A value whose wire form keeps all of it is rebuilt from that wire form as it
/// was: `from_abi(into_abi(x)) == x`.
pub proof fn law_round_trip<P: Parameter>(x: P, abi: P::Abi)
    requires
        P::rebuildable(),
        x.lossless(),
        P::encodes(x, abi),
    ensures
        P::rebuilt(abi) == x,
{
    x.lemma_round_trip(abi);
}

/// A host value that fits in its wire type comes back from the wire unchanged:
/// `into_host(from_host(h)) == h`.
pub proof fn law_host_round_trip<H, A: Abi<H>>(host: H)
    requires
        A::carries(host),
    ensures
        A::to_host(A::of_host(host)) == host,
{
    A::lemma_host_round_trip(host);
}

/// Every value of every supported integer type crosses as itself, widened to 32
/// bits where it is narrower, and comes back unchanged, on the guest side and on
/// the host side.
pub proof fn law_integer_round_trip(
    a: u8,
    b: u16,
    c: u32,
    d: u64,
    e: i8,
    f: i16,
    g: i32,
    h: i64,
)
    ensures
        <u8 as Parameter>::encodes(a, a as u32),
        <u8 as Parameter>::rebuilt(a as u32) == a,
        <u32 as Abi<u8>>::to_host(<u32 as Abi<u8>>::of_host(a)) == a,
        <u16 as Parameter>::encodes(b, b as u32),
        <u16 as Parameter>::rebuilt(b as u32) == b,
        <u32 as Abi<u16>>::to_host(<u32 as Abi<u16>>::of_host(b)) == b,
        <u32 as Parameter>::encodes(c, c as u32),
        <u32 as Parameter>::rebuilt(c as u32) == c,
        <u32 as Abi<u32>>::to_host(<u32 as Abi<u32>>::of_host(c)) == c,
        <u64 as Parameter>::encodes(d, d as u64),
        <u64 as Parameter>::rebuilt(d as u64) == d,
        <u64 as Abi<u64>>::to_host(<u64 as Abi<u64>>::of_host(d)) == d,
        <i8 as Parameter>::encodes(e, e as i32),
        <i8 as Parameter>::rebuilt(e as i32) == e,
        <i32 as Abi<i8>>::to_host(<i32 as Abi<i8>>::of_host(e)) == e,
        <i16 as Parameter>::encodes(f, f as i32),
        <i16 as Parameter>::rebuilt(f as i32) == f,
        <i32 as Abi<i16>>::to_host(<i32 as Abi<i16>>::of_host(f)) == f,
        <i32 as Parameter>::encodes(g, g as i32),
        <i32 as Parameter>::rebuilt(g as i32) == g,
        <i32 as Abi<i32>>::to_host(<i32 as Abi<i32>>::of_host(g)) == g,
        <i64 as Parameter>::encodes(h, h as i64),
        <i64 as Parameter>::rebuilt(h as i64) == h,
        <i64 as Abi<i64>>::to_host(<i64 as Abi<i64>>::of_host(h)) == h,
{
}

/// A guest pointer to an address below 2^32 crosses as that address and comes
/// back pointing at it, on the guest side and on the host side.
pub proof fn law_pointer_round_trip<T: Pointee>(p: ConstPtr<T>, q: MutPtr<T>)
    requires
        p.addr <= u32::MAX,
        q.addr <= u32::MAX,
    ensures
        <ConstPtr<T> as Parameter>::encodes(p, p.addr as u32),
        <ConstPtr<T> as Parameter>::rebuilt(p.addr as u32) == p,
        <u32 as Abi<ConstPtr<T>>>::to_host(<u32 as Abi<ConstPtr<T>>>::of_host(p)) == p,
        <MutPtr<T> as Parameter>::encodes(q, q.addr as u32),
        <MutPtr<T> as Parameter>::rebuilt(q.addr as u32) == q,
        <u32 as Abi<MutPtr<T>>>::to_host(<u32 as Abi<MutPtr<T>>>::of_host(q)) == q,
{
}

/// A view of the string `s`, resolved against memory that holds the bytes of `s`
/// at the view's address, gives back exactly those bytes.
pub proof fn law_string_view_round_trip(s: &str, v: GuestStringView, memory: Seq<u8>)
    requires
        <&str as Parameter>::encodes(s, v),
        v.spec_ptr() + v.spec_len() <= u32::MAX,
        v.spec_ptr() + v.spec_len() <= memory.len(),
        memory.subrange(v.spec_ptr() as int, v.spec_ptr() + v.spec_len()) == s.spec_bytes(),
    ensures
        resolve(v.spec_len(), v.spec_ptr(), memory) == Ok::<Seq<u8>, BoundaryError>(
            s.spec_bytes(),
        ),
{
}

/// A view of the byte slice `b`, resolved against memory that holds `b` at the
/// view's address, gives back exactly `b`.
pub proof fn law_memory_view_round_trip(b: &[u8], v: GuestMemoryView, memory: Seq<u8>)
    requires
        <&[u8] as Parameter>::encodes(b, v),
        v.spec_ptr() + v.spec_len() <= u32::MAX,
        v.spec_ptr() + v.spec_len() <= memory.len(),
        memory.subrange(v.spec_ptr() as int, v.spec_ptr() + v.spec_len()) == b@,
    ensures
        resolve(v.spec_len(), v.spec_ptr(), memory) == Ok::<Seq<u8>, BoundaryError>(b@),
{
}

/// Resolving a view against memory shorter than `ptr + len` fails, with
/// `OutOfBounds` wherever `ptr + len` fits in 32 bits; and whatever is resolved
/// is exactly the `len` bytes at `ptr`, never fewer and never wrapped around.
pub proof fn law_short_memory_fails(len: u32, ptr: u32, memory: Seq<u8>)
    ensures
        memory.len() < ptr + len ==> resolve(len, ptr, memory) is Err,
        memory.len() < ptr + len <= u32::MAX ==> resolve(len, ptr, memory) == Err::<
            Seq<u8>,
            BoundaryError,
        >(BoundaryError::OutOfBounds),
        resolve(len, ptr, memory) is Ok ==> resolve(len, ptr, memory)->Ok_0.len() == len
            && ptr + len <= memory.len() && resolve(len, ptr, memory)->Ok_0 == memory.subrange(
            ptr as int,
            ptr + len,
        ),
{
}

} // verus!
