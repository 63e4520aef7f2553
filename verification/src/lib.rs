//! Arithmetic operations, a Fibonacci proof service and the bookkeeping of
//! a streaming proxy, with their contracts.
pub mod compute;
pub mod fibonacci;
pub mod operations;
pub mod proof_service;
pub mod proxy;
pub mod stream;
