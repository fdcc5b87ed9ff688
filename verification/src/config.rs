//! Per-deployment configuration, as the configuration loader hands it over.

pub mod proto;
