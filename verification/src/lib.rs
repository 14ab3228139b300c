//! Unordered, constant-time removal from a `Vec`.
//!
//! [`swap_drop`] removes the element at an index by moving the vector's last
//! element into its place and shrinking the vector by one. An index past the
//! end is not an error: the vector is left alone. The vector always reaches
//! its final contents before the removed element is destroyed, so a destructor
//! that panics finds, and leaves behind, a vector that is already whole.
//!
//! [`swap_remove`] is the classic form of the same removal, which hands the
//! element back and demands an index inside the vector.
//!
//! [`rng_next`] steps a small generator that serves to pick the indices of a
//! run of removals.
//!
//! Every contract is stated over the vector's view, a `Seq<T>`, through the
//! spec functions of [`model`].

pub mod lemmas;
pub mod model;
pub mod removal;
pub mod rng;

pub use crate::removal::{swap_drop, swap_remove};
pub use crate::rng::rng_next;
