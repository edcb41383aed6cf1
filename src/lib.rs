//! An in-memory todo store and the request handlers that shape its
//! results into response envelopes, with their behaviour proved against
//! an abstract model of the store.
pub mod handlers;
pub mod laws;
pub mod model;
pub mod response;
pub mod store;
pub mod todo;
