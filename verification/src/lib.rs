//! Shared protocol core of a service that streams ledger account updates to
//! many subscribers: the compressed account record, the subscriber filters and
//! the transport's flow-control policy.

pub mod address;
pub mod address_set;
pub mod compression;
pub mod defaults;
pub mod error;
pub mod filters;
pub mod flow_control;
pub mod message;
pub mod types;
