//! Control plane of a function-as-a-service runtime: pooling policy, worker
//! supervision, request routing and graceful shutdown, each proved against its
//! contract.

pub mod config;
pub mod events;
pub mod policy;
pub mod pool;
pub mod router;
pub mod shutdown;
pub mod supervisor;
pub mod text;
