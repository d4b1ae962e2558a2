//! The verified core of Orbit, a platform that builds user plugins to
//! WebAssembly in a sandbox and shows them as windows in a web client.
//!
//! - `security`: the screening of submitted source code;
//! - `schema`: attaching a UI schema, asked of a language model, to plugin code;
//! - `json`: JSON string literals;
//! - `sandbox`: the build command, artifact selection and the service's replies;
//! - `service`: the order of the service's steps, from request to reply;
//! - `template`: the default plugin and its schema;
//! - `desktop`: the client's windows, plugin loading, titles and status lines;
//! - `widgets`: frames, playback, calculator operands and schema elements;
//! - `text`: character-level text utilities.
pub mod desktop;
pub mod json;
pub mod sandbox;
pub mod schema;
pub mod security;
pub mod service;
pub mod template;
pub mod text;
pub mod widgets;
