//! A read-only directory of people, and the HTTP responses that a small
//! service gives for it.
//!
//! The directory holds a fixed list of [`person::Person`] records. The
//! functions in [`handlers`] turn a request into a [`handlers::Response`]
//! value; serving those values over a socket is left to the caller.

pub mod decimal;
pub mod directory;
pub mod handlers;
pub mod json;
pub mod person;
pub mod record;
