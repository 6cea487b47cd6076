//! Prover side of the Dory inner-product argument.
//!
//! The argument proves a scalar-product relation between two families of
//! vectors that live in paired groups.  Each round halves the vectors by a
//! fold whose weights are challenges drawn from the transcript of everything
//! sent so far; a last step closes the argument on vectors of length one.
//!
//! The crate states the protocol over an abstract arithmetic
//! ([`algebra`]) and abstract public parameters ([`setup`]), gives the two
//! capabilities that the protocol is run with ([`ProverState`],
//! [`ProofBuilder`]) and the driver that wires them together
//! ([`inner_product_prove`]).
//!
//! It also holds one realisation of each part, small enough to follow by
//! hand: the integers modulo `P` for the arithmetic ([`residue`]), vectors
//! kept in memory for the state ([`vector_state`]), and a builder that draws
//! its challenges from a list ([`replay`]).

pub mod algebra;
pub mod builder;
pub mod inner_product;
pub mod messages;
pub mod replay;
pub mod residue;
pub mod setup;
pub mod state;
pub mod vector_state;

pub use builder::ProofBuilder;
pub use inner_product::inner_product_prove;
pub use state::ProverState;
