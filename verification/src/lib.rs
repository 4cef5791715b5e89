//! Bookkeeping core of a small real-time rendering harness: the state that
//! sits between a program and its graphics API, with every rule of that state
//! stated as a contract and proved.

pub mod render;
pub mod util;
