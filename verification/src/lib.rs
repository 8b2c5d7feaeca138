//! The request-handling core of a small hypermedia demonstration server:
//! one HTML page with a form, and two endpoints that echo the submitted
//! name back, as JSON or as an HTML fragment that replaces part of the page.
//!
//! Everything here is a function from plain values to plain values. The
//! listener, the file system and the log belong to the program around it.

pub mod escape;
pub mod files;
pub mod handler;
pub mod media;
pub mod page;
pub mod payload;
pub mod response;
pub mod route;
pub mod text;
