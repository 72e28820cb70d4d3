//! A source-to-source rewrite pass over a parsed module's top-level items.
//!
//! Given a configured platform name, the pass removes every import from the
//! reserved module `"universal-env"` and declares each named binding that such
//! an import introduced as a boolean constant, true exactly when the binding's
//! name is an active flag of the configured platform. Downstream dead-code
//! elimination can then strip platform-specific branches statically.

pub mod ast;
pub mod platform;
pub mod rewrite;
pub mod laws;
