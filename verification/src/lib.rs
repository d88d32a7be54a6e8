//! Verified core of the TFC industrial control framework.
pub mod banner;
pub mod button;
pub mod confman;
pub mod ethercat;
pub mod filter;
pub mod ipc;
pub mod ipc_ruler;
pub mod median_filter;
pub mod operations;
pub mod progbase;
pub mod text;
pub mod time;
