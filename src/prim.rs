use vstd::prelude::*;

use crate::error::BoundaryError;
use crate::traits::{Abi, Parameter};

verus! {

// Each supported integer type is its own host type. 32- and 64-bit integers
// cross as themselves; 8- and 16-bit integers are widened to the 32-bit word of
// the same signedness on the way out and narrowed back on the way in.

impl Parameter for u8 {
    type Host = u8;

    type Abi = u32;

    open spec fn encodes(self, abi: u32) -> bool {
        abi == self as u32
    }

    open spec fn refuses(self, e: BoundaryError) -> bool {
        false
    }

    open spec fn rebuildable() -> bool {
        true
    }

    open spec fn rebuilt(abi: u32) -> u8 {
        abi as u8
    }

    open spec fn lossless(self) -> bool {
        true
    }

    fn into_abi(self) -> (r: Result<u32, BoundaryError>)
        ensures
            r == Ok::<u32, BoundaryError>(self as u32),
    {
        Ok(self as u32)
    }

    fn from_abi(abi: u32) -> (r: u8) {
        abi as u8
    }

    proof fn lemma_round_trip(self, abi: u32) {
    }
}

impl Abi<u8> for u32 {
    open spec fn to_host(self) -> u8 {
        self as u8
    }

    open spec fn of_host(host: u8) -> u32 {
        host as u32
    }

    open spec fn carries(host: u8) -> bool {
        true
    }

    fn into_host(self) -> (r: u8) {
        self as u8
    }

    fn from_host(host: u8) -> (r: u32) {
        host as u32
    }

    proof fn lemma_host_round_trip(host: u8) {
    }
}

impl Parameter for u16 {
    type Host = u16;

    type Abi = u32;

    open spec fn encodes(self, abi: u32) -> bool {
        abi == self as u32
    }

    open spec fn refuses(self, e: BoundaryError) -> bool {
        false
    }

    open spec fn rebuildable() -> bool {
        true
    }

    open spec fn rebuilt(abi: u32) -> u16 {
        abi as u16
    }

    open spec fn lossless(self) -> bool {
        true
    }

    fn into_abi(self) -> (r: Result<u32, BoundaryError>)
        ensures
            r == Ok::<u32, BoundaryError>(self as u32),
    {
        Ok(self as u32)
    }

    fn from_abi(abi: u32) -> (r: u16) {
        abi as u16
    }

    proof fn lemma_round_trip(self, abi: u32) {
    }
}

impl Abi<u16> for u32 {
    open spec fn to_host(self) -> u16 {
        self as u16
    }

    open spec fn of_host(host: u16) -> u32 {
        host as u32
    }

    open spec fn carries(host: u16) -> bool {
        true
    }

    fn into_host(self) -> (r: u16) {
        self as u16
    }

    fn from_host(host: u16) -> (r: u32) {
        host as u32
    }

    proof fn lemma_host_round_trip(host: u16) {
    }
}

impl Parameter for u32 {
    type Host = u32;

    type Abi = u32;

    open spec fn encodes(self, abi: u32) -> bool {
        abi == self
    }

    open spec fn refuses(self, e: BoundaryError) -> bool {
        false
    }

    open spec fn rebuildable() -> bool {
        true
    }

    open spec fn rebuilt(abi: u32) -> u32 {
        abi
    }

    open spec fn lossless(self) -> bool {
        true
    }

    fn into_abi(self) -> (r: Result<u32, BoundaryError>)
        ensures
            r == Ok::<u32, BoundaryError>(self),
    {
        Ok(self)
    }

    fn from_abi(abi: u32) -> (r: u32) {
        abi
    }

    proof fn lemma_round_trip(self, abi: u32) {
    }
}

impl Parameter for u64 {
    type Host = u64;

    type Abi = u64;

    open spec fn encodes(self, abi: u64) -> bool {
        abi == self
    }

    open spec fn refuses(self, e: BoundaryError) -> bool {
        false
    }

    open spec fn rebuildable() -> bool {
        true
    }

    open spec fn rebuilt(abi: u64) -> u64 {
        abi
    }

    open spec fn lossless(self) -> bool {
        true
    }

    fn into_abi(self) -> (r: Result<u64, BoundaryError>)
        ensures
            r == Ok::<u64, BoundaryError>(self),
    {
        Ok(self)
    }

    fn from_abi(abi: u64) -> (r: u64) {
        abi
    }

    proof fn lemma_round_trip(self, abi: u64) {
    }
}

impl Parameter for i8 {
    type Host = i8;

    type Abi = i32;

    open spec fn encodes(self, abi: i32) -> bool {
        abi == self as i32
    }

    open spec fn refuses(self, e: BoundaryError) -> bool {
        false
    }

    open spec fn rebuildable() -> bool {
        true
    }

    open spec fn rebuilt(abi: i32) -> i8 {
        abi as i8
    }

    open spec fn lossless(self) -> bool {
        true
    }

    fn into_abi(self) -> (r: Result<i32, BoundaryError>)
        ensures
            r == Ok::<i32, BoundaryError>(self as i32),
    {
        Ok(self as i32)
    }

    fn from_abi(abi: i32) -> (r: i8) {
        abi as i8
    }

    proof fn lemma_round_trip(self, abi: i32) {
    }
}

impl Abi<i8> for i32 {
    open spec fn to_host(self) -> i8 {
        self as i8
    }

    open spec fn of_host(host: i8) -> i32 {
        host as i32
    }

    open spec fn carries(host: i8) -> bool {
        true
    }

    fn into_host(self) -> (r: i8) {
        self as i8
    }

    fn from_host(host: i8) -> (r: i32) {
        host as i32
    }

    proof fn lemma_host_round_trip(host: i8) {
    }
}

impl Parameter for i16 {
    type Host = i16;

    type Abi = i32;

    open spec fn encodes(self, abi: i32) -> bool {
        abi == self as i32
    }

    open spec fn refuses(self, e: BoundaryError) -> bool {
        false
    }

    open spec fn rebuildable() -> bool {
        true
    }

    open spec fn rebuilt(abi: i32) -> i16 {
        abi as i16
    }

    open spec fn lossless(self) -> bool {
        true
    }

    fn into_abi(self) -> (r: Result<i32, BoundaryError>)
        ensures
            r == Ok::<i32, BoundaryError>(self as i32),
    {
        Ok(self as i32)
    }

    fn from_abi(abi: i32) -> (r: i16) {
        abi as i16
    }

    proof fn lemma_round_trip(self, abi: i32) {
    }
}

impl Abi<i16> for i32 {
    open spec fn to_host(self) -> i16 {
        self as i16
    }

    open spec fn of_host(host: i16) -> i32 {
        host as i32
    }

    open spec fn carries(host: i16) -> bool {
        true
    }

    fn into_host(self) -> (r: i16) {
        self as i16
    }

    fn from_host(host: i16) -> (r: i32) {
        host as i32
    }

    proof fn lemma_host_round_trip(host: i16) {
    }
}

impl Parameter for i32 {
    type Host = i32;

    type Abi = i32;

    open spec fn encodes(self, abi: i32) -> bool {
        abi == self
    }

    open spec fn refuses(self, e: BoundaryError) -> bool {
        false
    }

    open spec fn rebuildable() -> bool {
        true
    }

    open spec fn rebuilt(abi: i32) -> i32 {
        abi
    }

    open spec fn lossless(self) -> bool {
        true
    }

    fn into_abi(self) -> (r: Result<i32, BoundaryError>)
        ensures
            r == Ok::<i32, BoundaryError>(self),
    {
        Ok(self)
    }

    fn from_abi(abi: i32) -> (r: i32) {
        abi
    }

    proof fn lemma_round_trip(self, abi: i32) {
    }
}

impl Parameter for i64 {
    type Host = i64;

    type Abi = i64;

    open spec fn encodes(self, abi: i64) -> bool {
        abi == self
    }

    open spec fn refuses(self, e: BoundaryError) -> bool {
        false
    }

    open spec fn rebuildable() -> bool {
        true
    }

    open spec fn rebuilt(abi: i64) -> i64 {
        abi
    }

    open spec fn lossless(self) -> bool {
        true
    }

    fn into_abi(self) -> (r: Result<i64, BoundaryError>)
        ensures
            r == Ok::<i64, BoundaryError>(self),
    {
        Ok(self)
    }

    fn from_abi(abi: i64) -> (r: i64) {
        abi
    }

    proof fn lemma_round_trip(self, abi: i64) {
    }
}

} // verus!
