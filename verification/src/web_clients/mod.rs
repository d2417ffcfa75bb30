//! Clients of outside web services.
pub mod dd_info;
