//! A library that plans the one-shot mirroring of a relational store into a
//! shared in-memory replica, and drives the fixed, ordered tick pipeline that
//! runs against that replica afterwards.
//!
//! Everything here is pure decision logic: the statements to issue, the order
//! to issue them in, and the state transitions taken on each outcome. The
//! database calls themselves are performed by the caller.
pub mod batch;
pub mod catalog;
pub mod loader;
pub mod pipeline;
pub mod pool;
pub mod uri;
