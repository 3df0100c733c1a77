//! A test runner library: results, hooks around tests, blocks of tests with
//! setup and teardown hooks, and type-level lists of test contexts.
pub mod derive;
pub mod eth;
pub mod exp;
pub mod hook;
pub mod hooks;
pub mod outcome;
pub mod stream;
pub mod ty;
