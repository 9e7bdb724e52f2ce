//! An in-memory key-value store served over HTTP, with liveness and
//! metrics endpoints: the store, the request router and the response bodies.
pub mod body;
pub mod laws;
pub mod router;
pub mod store;
pub mod text;
pub mod uptime;

pub use router::{handle, respond, route, Method, Outcome, Response, Route};
pub use store::Store;
pub use uptime::UptimeTracker;
