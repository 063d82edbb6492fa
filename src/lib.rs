//! Marshaling of guest-side function arguments across a guest/host boundary.
//!
//! A guest value is turned into a wire value ([`Parameter::into_abi`]) that the
//! host turns into its own logical value ([`Abi::into_host`]). Strings and byte
//! slices travel as two 32-bit words ([`GuestStringView`], [`GuestMemoryView`])
//! that the host resolves, with bounds checks, against the guest's memory.
pub mod error;
pub mod laws;
pub mod prim;
pub mod ptr;
pub mod traits;
pub mod view;

pub use error::BoundaryError;
pub use ptr::{ConstPtr, MutPtr, Pointee};
pub use traits::{Abi, Function, Parameter};
pub use view::{GuestMemoryView, GuestStringView};

