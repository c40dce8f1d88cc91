pub mod config;
pub mod error;
pub mod http;
pub mod storage;
