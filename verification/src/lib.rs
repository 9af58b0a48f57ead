//! A compliance-gated swap settlement engine.
//!
//! The library verifies the logic of a constant-product-style exchange that
//! converts one asset balance into another, deducts protocol and referral
//! fees, and routes balance movements of hook-declaring assets through an
//! allow-listed "transfer hook" program.  Host-side plumbing (account
//! loading, cross-program invocation) stays outside; the library works on
//! plain values and states what each operation returns or changes.

pub mod ids;
pub mod badge;
pub mod bytes;
pub mod errors;
pub mod executor;
pub mod fee;
pub mod hook;
pub mod kyc;
pub mod metadata;
pub mod pool;
pub mod registry;
pub mod swap;
pub mod token;

pub use ids::ProgramId;
pub use errors::PoolError;
pub use registry::HookRegistry;
