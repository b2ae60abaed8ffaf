//! Request routing, request validation and error responses of a small JSON web API.
pub mod api;
pub mod store;
