//! Verified core of the BuYu chat client: data models, validation rules,
//! channel orchestration, content storage decisions and streaming parsers.

pub mod channel_types;
pub mod domain;
pub mod error;
pub mod models;
pub mod providers;
pub mod repo;
pub mod text;
pub mod services;
pub mod support;
