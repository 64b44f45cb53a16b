//! Reports on the state of the host's network and small helpers for
//! drawing charts, as two shell plugins see them.
//!
//! The network report is assembled from snapshots: plain records of what
//! was read from the network service, attribute by attribute, with `None`
//! for every read that yielded nothing. `manager`, `active`, `device` and
//! `connection` hold the snapshots and say what each reads as; `compose`
//! folds lists of children; `adapter` and `decode` turn single attributes
//! into nodes; `value` is the report itself; `session`, `pass` and
//! `plugin` frame one pass. `graph` holds what the chart command decides
//! before anything is drawn.

pub mod active;
pub mod adapter;
pub mod compose;
pub mod connection;
pub mod decode;
pub mod device;
pub mod graph;
pub mod manager;
pub mod pass;
pub mod plugin;
pub mod session;
pub mod value;
