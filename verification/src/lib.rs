//! A handle-scope safety layer and cross-thread callback bridge for driving a
//! single-threaded managed runtime from native code.
//!
//! The managed runtime itself is an external collaborator reached through a
//! foreign call interface; this crate verifies the layer above it against an
//! explicit state model of that interface ([`runtime::Runtime`]). The model
//! plays the part of the foreign runtime in contracts and tests: every
//! operation that would cross the foreign boundary is a method on the model
//! with an exact contract, and the scope, exception-unification, dispatch and
//! persistent-reference logic is verified over it.

pub mod callback;
pub mod context;
pub mod env;
pub mod handle;
pub mod result;
pub mod runtime;
pub mod sync;
pub mod types;
pub mod unify;
