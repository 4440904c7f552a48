//! Decisions of a command-line client for a cloud DNS record service:
//! which request a command line asks for, whether the credentials suffice,
//! what the user is shown, and the order in which these happen.

pub mod config;
pub mod report;
pub mod request;
pub mod session;
