//! GitHuber prelude.

pub use crate::api::{Api, ApiExt, Method};
