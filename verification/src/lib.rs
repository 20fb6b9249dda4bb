//! The decisions of a link harvester: which pending links a reconciliation
//! pass takes up, how their pages are fetched and read, what is written back,
//! and how passes are kept from overlapping. The library performs no I/O; its
//! caller reads the store, sends the requests and reports what happened.

pub mod controller;
pub mod ctx;
pub mod error;
pub mod http;
pub mod listener;
pub mod model;
pub mod pass;
pub mod reconcile;
pub mod store;
