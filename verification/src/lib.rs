//! Toolchain-bundle bookkeeping for reproducible Android builds.
pub mod cache;
pub mod config;
pub mod digest;
pub mod document;
pub mod error;
pub mod lock;
pub mod manifest;
pub mod package;
pub mod pins;
pub mod publish;
pub mod release;
pub mod target;
pub mod text;
pub mod verify;
pub mod version_check;
