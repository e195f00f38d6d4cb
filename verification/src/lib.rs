//! A compiler from service interface declarations to typed client stubs.
//!
//! An interface is a list of methods. For each method the generator derives a
//! pair of client methods, one that unwraps the host's answer and one that
//! hands the three-way outcome back, and assembles them into a client
//! definition; or, if any parameter cannot be compiled, reports every such
//! parameter and emits nothing else.

pub mod model;
pub mod literal;
pub mod classify;
pub mod output;
pub mod emit;
pub mod client;
pub mod auth;
pub mod overrides;
pub mod laws;
pub mod render;
