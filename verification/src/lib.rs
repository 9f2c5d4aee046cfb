//! A fixed-capacity table: `N` slots of `T`, allocated once, addressed by index.
//!
//! Every slot holds a value at all times. A slot is never removed; it is reset
//! to `T::default()`, which is also what every slot holds in a fresh table.
//!
//! - [`table`]: the container and its operations, each with its contract.
//! - [`model`]: the vocabulary the contracts are written in.
//! - [`laws`]: properties of the operations taken together, proved from the
//!   contracts.
//! - [`array_init`]: what is assumed of `core::array::from_fn`.

pub mod array_init;
pub mod laws;
pub mod model;
pub mod table;

pub use table::Table;
