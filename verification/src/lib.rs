//! A load-testing harness for a unary RPC service: verified core logic for
//! distributing workers across server replicas, accumulating shared metrics,
//! computing periodic reports, and coordinating cooperative shutdown.

pub mod decimal;
pub mod endpoints;
pub mod greeter;
pub mod metrics;
pub mod report;
pub mod shared;
pub mod shutdown;
pub mod worker;
