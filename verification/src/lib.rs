//! The model listings of a Codex endpoint: the query that asks a provider for
//! its models, the reading of a provider's model list, and the catalogue that
//! the app server shows.

pub mod catalog;
pub mod endpoint;
pub mod header;
pub mod json;
pub mod provider_models;
pub mod text;
