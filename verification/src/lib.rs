//! Read-only resolver for a date-partitioned archive of traffic sensor samples
//! and a companion archive of network configuration snapshots.

pub mod bundle;
pub mod date;
pub mod json;
pub mod lister;
pub mod metro;
pub mod order;
pub mod request;
pub mod response;
pub mod sample;
pub mod sensor;
pub mod text;
