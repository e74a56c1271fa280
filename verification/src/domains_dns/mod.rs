//! The `domains.dns` commands of the API.
pub mod get_hosts;
pub mod set_hosts;
