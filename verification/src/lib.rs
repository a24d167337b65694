//! The administrative control plane of a clustered MQTT broker, verified.
//!
//! An operator inspects the cluster and changes its policy through one remote
//! operation at a time. This crate holds what each operation decides:
//!
//! - `admin` assembles the snapshot of the cluster from one read of each registry
//!   (`cluster_status_by_req`), lists the live connections that the cache knows
//!   (`list_connection_by_req`) and switches flapping detection
//!   (`enable_flapping_detect_by_req`).
//! - `gateway` carries a change through in steps: it validates the change, asks
//!   the metadata service whether the key is taken, has the service make the
//!   change, and only then makes it in the cache. `handler` runs those steps
//!   against a metadata service, and says in one place what a change leads to.
//! - `dispatch` binds every remote operation to the command, the query or the
//!   table of the cache that serves it; `service` runs each operation against a
//!   metadata service held in memory, and `transport` turns a failure into the
//!   status that the transport carries.
//! - `metadata` is a metadata service held in memory; `cache`, `connection` and
//!   `subscribe` are the cache and the registries that the operations read.
//! - `table`, `idmap` and `tables` are the keyed collections underneath, and
//!   `assoc` what is proved of them.
//! - `laws` states what holds across operations.
//!
//! Every function carries a contract that Verus proves. What is believed without
//! proof is named in `transport` and `json`: how `tonic` builds a status, and how
//! `serde_json` builds and serializes a value.

pub mod admin;
pub mod assoc;
pub mod cache;
pub mod config;
pub mod connection;
pub mod dispatch;
pub mod entity;
pub mod error;
pub mod gateway;
pub mod handler;
pub mod idmap;
pub mod json;
pub mod laws;
pub mod metadata;
pub mod node;
pub mod operation;
pub mod page;
pub mod reply;
pub mod service;
pub mod subscribe;
pub mod table;
pub mod tables;
pub mod transport;
