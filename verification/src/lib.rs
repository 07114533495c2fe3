//! A vector with a fixed capacity and a dynamic length.
//!
//! [`Vec`] holds at most `CAPACITY` elements, a number that is part of its type. Whatever
//! would need more room is turned down with a [`CapacityError`] and changes nothing.
//!
//! Every operation has a contract over the sequence of elements that the vector holds
//! (its view). The functions that the contracts are written in live in [`model`]; what
//! follows from them for any element type, capacity and contents is proved in [`laws`].

pub mod error;
pub mod iter;
pub mod laws;
pub mod model;
pub mod vector;

pub use error::{CapacityError, CapacityErrorKind};
pub use iter::{Iter, IterMut};
pub use vector::Vec;
