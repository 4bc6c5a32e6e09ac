//! Derivation of observability settings (log format, error-reporting
//! endpoint and environment label) from environment variables.
//!
//! The derivation itself is a pure function over an explicit snapshot of
//! the relevant variables, so it can be verified and tested on any
//! environment; reading the real process environment is left to the
//! caller.

pub mod observability;
