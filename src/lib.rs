//! Connection-and-refresh engine of a terminal dashboard that watches the
//! pods and deployments of a cluster reached through an SSH port forward.

pub mod text;
pub mod config;
pub mod cluster;
pub mod app;
pub mod tunnel;
pub mod dummy;
pub mod status;
