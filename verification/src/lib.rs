//! A one-shot pull replicator for databases that speak the CouchDB
//! replication protocol, written as a verified protocol engine: every
//! decision of a replication run is a function from state and reply to the
//! next state and the next request, and the program around it only performs
//! the requests.

pub mod batch;
pub mod database;
pub mod digest;
pub mod documents;
pub mod error;
pub mod locator;
pub mod machine;
pub mod replicator;
pub mod rouch;
pub mod run;
pub mod session;
pub mod step;
pub mod text;
