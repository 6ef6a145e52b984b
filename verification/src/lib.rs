//! Library core of a CV maintenance tool: a JSON document model with an
//! exact serializer, schema validation for the bundled CV schema, credential
//! resolution, and the decision logic behind the init / validate / auth /
//! publish commands. All I/O stays with the binary around this library.

pub mod auth;
pub mod bundled;
pub mod commands;
pub mod config;
pub mod json;
pub mod parse;
pub mod schema;
pub mod text;
