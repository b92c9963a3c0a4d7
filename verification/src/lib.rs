//! Dependency injection for free-standing functions, decided at compile
//! time: from a function, or from the public functions of a scope, an
//! interface with one method for each function, and an implementation of
//! that interface which hands every call on to the function.
//!
//! This crate holds what is decided on the way: how a function gets at its
//! dependencies, which generic parameters the interface has, how
//! asynchronous methods are represented, how visible the interface is, and
//! what the two declarations consist of. Parsing is left to the caller.

pub mod analyze_generics;
pub mod emit;
pub mod entrait_fn;
pub mod error;
pub mod generics;
pub mod input;
pub mod laws;
pub mod naming;
pub mod opt;
pub mod output;
pub mod render;
pub mod signature;
pub mod strategy;
pub mod text;
pub mod token_util;
