//! The core of an inference gateway: request validation, tool assembly,
//! variant sampling, provider response translation, streaming decisions,
//! authentication decisions and client-side dispatch planning.

pub mod auth;
pub mod auth_admin;
pub mod client;
pub mod client_error;
pub mod client_input;
pub mod error;
pub mod function;
pub mod ids;
pub mod inference;
pub mod json;
pub mod jsonschema_util;
pub mod migration;
pub mod model;
pub mod numeral;
pub mod providers;
pub mod sampling;
pub mod streaming;
pub mod table;
pub mod text;
pub mod tool;
pub mod types;
pub mod variant;
pub mod version;
pub mod web;
