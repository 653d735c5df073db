//! Creational patterns for staffing a department, with machine-checked
//! contracts.
//!
//! Four patterns, each in a module of its own: a creation method, a simple
//! factory, a factory method with its template routine, and an abstract
//! factory whose manager keeps the books on every product it hands out.

pub mod abstract_factory;
pub mod account;
pub mod creation_method;
pub mod decimal;
pub mod factory_method;
pub mod simple_factory;
