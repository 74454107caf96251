//! The provider adapters: the registry that finds the adapter of a
//! provider family, the pieces they share, and what each family's requests
//! are made of.

pub mod anthropic;
pub mod common;
pub mod custom;
pub mod gemini;
pub mod openai;
pub mod openai_compatible;
pub mod registry;
