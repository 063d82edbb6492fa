use vstd::prelude::*;

use core::marker::PhantomData;

use crate::error::BoundaryError;
use crate::traits::{Abi, Parameter};

verus! {

/// An integer type that a guest pointer may point to.
pub trait Pointee {}

impl Pointee for u8 {}

impl Pointee for u16 {}

impl Pointee for u32 {}

impl Pointee for u64 {}

impl Pointee for i8 {}

impl Pointee for i16 {}

impl Pointee for i32 {}

impl Pointee for i64 {}

/// A guest pointer `*const T`, held as the address it points at.
///
/// On the wire it is an unsigned 32-bit address: the address is cut to its low
/// 32 bits on the way out, so only addresses below 2^32 come back unchanged.
#[derive(Debug)]
pub struct ConstPtr<T> {
    /// The address pointed at.
    pub addr: usize,
    /// The type pointed at; holds nothing.
    pub pointee: PhantomData<T>,
}

impl<T> ConstPtr<T> {
    /// The pointer to `addr`.
    pub open spec fn at(addr: usize) -> Self {
        ConstPtr { addr, pointee: PhantomData }
    }

    /// The pointer to `addr`.
    pub fn new(addr: usize) -> (r: Self)
        ensures
            r == Self::at(addr),
    {
        ConstPtr { addr, pointee: PhantomData }
    }

    /// The address pointed at.
    pub fn addr(&self) -> (r: usize)
        ensures
            r == self.addr,
    {
        self.addr
    }
}

impl<T: Pointee> Parameter for ConstPtr<T> {
    type Host = ConstPtr<T>;

    type Abi = u32;

    open spec fn encodes(self, abi: u32) -> bool {
        abi == self.addr as u32
    }

    open spec fn refuses(self, e: BoundaryError) -> bool {
        false
    }

    open spec fn rebuildable() -> bool {
        true
    }

    open spec fn rebuilt(abi: u32) -> Self {
        Self::at(abi as usize)
    }

    open spec fn lossless(self) -> bool {
        self.addr <= u32::MAX
    }

    fn into_abi(self) -> (r: Result<u32, BoundaryError>)
        ensures
            r == Ok::<u32, BoundaryError>(self.addr as u32),
    {
        Ok(self.addr as u32)
    }

    fn from_abi(abi: u32) -> (r: Self) {
        Self::new(abi as usize)
    }

    proof fn lemma_round_trip(self, abi: u32) {
    }
}

impl<T: Pointee> Abi<ConstPtr<T>> for u32 {
    open spec fn to_host(self) -> ConstPtr<T> {
        ConstPtr::at(self as usize)
    }

    open spec fn of_host(host: ConstPtr<T>) -> u32 {
        host.addr as u32
    }

    open spec fn carries(host: ConstPtr<T>) -> bool {
        host.addr <= u32::MAX
    }

    fn into_host(self) -> (r: ConstPtr<T>) {
        ConstPtr::new(self as usize)
    }

    fn from_host(host: ConstPtr<T>) -> (r: u32) {
        host.addr as u32
    }

    proof fn lemma_host_round_trip(host: ConstPtr<T>) {
    }
}

/// A guest pointer `*mut T`, held as the address it points at.
///
/// On the wire it is an unsigned 32-bit address: the address is cut to its low
/// 32 bits on the way out, so only addresses below 2^32 come back unchanged.
#[derive(Debug)]
pub struct MutPtr<T> {
    /// The address pointed at.
    pub addr: usize,
    /// The type pointed at; holds nothing.
    pub pointee: PhantomData<T>,
}

impl<T> MutPtr<T> {
    /// The pointer to `addr`.
    pub open spec fn at(addr: usize) -> Self {
        MutPtr { addr, pointee: PhantomData }
    }

    /// The pointer to `addr`.
    pub fn new(addr: usize) -> (r: Self)
        ensures
            r == Self::at(addr),
    {
        MutPtr { addr, pointee: PhantomData }
    }

    /// The address pointed at.
    pub fn addr(&self) -> (r: usize)
        ensures
            r == self.addr,
    {
        self.addr
    }
}

impl<T: Pointee> Parameter for MutPtr<T> {
    type Host = MutPtr<T>;

    type Abi = u32;

    open spec fn encodes(self, abi: u32) -> bool {
        abi == self.addr as u32
    }

    open spec fn refuses(self, e: BoundaryError) -> bool {
        false
    }

    open spec fn rebuildable() -> bool {
        true
    }

    open spec fn rebuilt(abi: u32) -> Self {
        Self::at(abi as usize)
    }

    open spec fn lossless(self) -> bool {
        self.addr <= u32::MAX
    }

    fn into_abi(self) -> (r: Result<u32, BoundaryError>)
        ensures
            r == Ok::<u32, BoundaryError>(self.addr as u32),
    {
        Ok(self.addr as u32)
    }

    fn from_abi(abi: u32) -> (r: Self) {
        Self::new(abi as usize)
    }

    proof fn lemma_round_trip(self, abi: u32) {
    }
}

impl<T: Pointee> Abi<MutPtr<T>> for u32 {
    open spec fn to_host(self) -> MutPtr<T> {
        MutPtr::at(self as usize)
    }

    open spec fn of_host(host: MutPtr<T>) -> u32 {
        host.addr as u32
    }

    open spec fn carries(host: MutPtr<T>) -> bool {
        host.addr <= u32::MAX
    }

    fn into_host(self) -> (r: MutPtr<T>) {
        MutPtr::new(self as usize)
    }

    fn from_host(host: MutPtr<T>) -> (r: u32) {
        host.addr as u32
    }

    proof fn lemma_host_round_trip(host: MutPtr<T>) {
    }
}

} // verus!
