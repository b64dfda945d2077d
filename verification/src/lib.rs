//! Provider adapters for a media tracking host: a Plex library adapter and a
//! deterministic fixture provider, as verified logic over plain message values.
pub mod sdk;
pub mod text;
pub mod model;
pub mod mapping;
pub mod client;
pub mod service;
pub mod adapter;
pub mod hashing;
pub mod authentication;
pub mod connection;
pub mod assets;
pub mod assoc;
pub mod fixture;
pub mod scenarios;
pub mod paging;
