//! A declarative-to-concrete request generator for a REST API client.
//!
//! An endpoint is described once by its metadata (category, HTTP method,
//! accept header, URI template) and a list of fields with their roles.
//! From that description the generator derives a request type: how it is
//! constructed, how each field is set, the URL it targets and the payload
//! parameters it carries.

pub mod api;
pub mod endpoint;
pub mod fields;
pub mod laws;
pub mod method;
pub mod naming;
pub mod prelude;
pub mod request;
pub mod requests;
pub mod schema;
pub mod select;
pub mod template;
pub mod text;
pub mod util;
pub mod value;
