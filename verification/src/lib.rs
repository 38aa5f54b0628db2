//! A bridge from native code to operations of a Java runtime that is embedded
//! in the same process.

pub mod call;
pub mod error;
pub mod facade;
pub mod failure;
pub mod jvm;
pub mod marshal;
pub mod proxy;
pub mod runtime;
pub mod signature;
