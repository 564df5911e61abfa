//! Two small demonstrations of Rust's type system, stated and proved:
//! a record that is moved between owners, and a hand-written optional
//! type that is consumed by an exhaustive match.

pub mod type_system;
pub mod user;
