//! Error taxonomy and response conversion for request handlers.
//!
//! A handler's outcome, whatever its type, becomes one [`Response`] through
//! [`IntoResponse`]; every failure is a [`LunoxError`], which says with which
//! status and message it is answered.

pub mod errors;
pub mod header;
pub mod json;
pub mod response;
pub mod status;
pub mod text;

pub use errors::LunoxError;
pub use response::{BuildError, IntoResponse, Response, ResponseBuilder};
pub use status::{InvalidStatusCode, StatusCode};
