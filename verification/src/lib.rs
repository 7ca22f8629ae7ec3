//! Pricing and settlement of leveraged positions against untrusted price feeds.
//!
//! The crate is a pure computation core: every operation takes the current
//! records and feed readings as plain values and returns either a value or the
//! updated records. All arithmetic is fail-closed unless a field is documented
//! as saturating or wrapping.

pub mod error;
pub mod math;
pub mod instructions;
pub mod state;
