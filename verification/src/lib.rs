//! Core of a small message-board service: parsing of form-encoded requests,
//! an in-memory message store with filtered queries, response construction,
//! and the request dispatcher that ties them together.

pub mod form;
pub mod model;
pub mod parse;
pub mod render;
pub mod response;
pub mod router;
pub mod store;
pub mod text;
