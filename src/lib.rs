//! The AVM1 `Boolean` builtin: a primitive-boxing native object, its class
//! and prototype, and the constructor that serves both `new Boolean(x)` and
//! `Boolean(x)`.

pub mod activation;
pub mod boolean;
pub mod object;
pub mod property_decl;
pub mod value;
