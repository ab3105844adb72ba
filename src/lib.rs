//! Peer-to-peer file sharing over a local network: the file catalog's upsert
//! policy, the peer-facing serving rules, the server lifecycle slot and the
//! peer discovery helpers.

pub mod catalog;
pub mod device;
pub mod error;
pub mod lifecycle;
pub mod mime;
pub mod model;
pub mod peer;
pub mod routes;
pub mod text;
