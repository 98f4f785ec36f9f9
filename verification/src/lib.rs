//! A small web framework: route tables, request dispatch, and response
//! building, with the decisions that a server makes for every request
//! stated and proved.

pub mod pattern;
pub mod text;
pub mod search;
pub mod server;
pub mod templates;
pub mod host;
pub mod response;
pub mod response_builder;
pub mod routing;
pub mod pages;
pub mod application;
