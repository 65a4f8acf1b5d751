//! A consent-gated, identity-keyed record store for BMI measurements.
//!
//! A caller registers as a named user, submits a weight/height pair to
//! derive a Body Mass Index score, and — subject to an explicit consent
//! flag — persists, retrieves, or erases that value under the caller's
//! identity. Caller identity is resolved by the hosting environment and
//! threaded into every entry point as an explicit parameter.

pub mod bmi;
pub mod consent;
pub mod contract;
pub mod policy;
pub mod text;
