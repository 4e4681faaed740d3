//! A gateway that turns a paraphrase request into one call of a text-generation
//! service and turns the service's reply into an HTTP reply.
//!
//! Everything here is a pure function of its arguments: the caller performs
//! the outbound call and hands its outcome back.
pub mod config;
pub mod gateway;
pub mod json;
pub mod laws;
pub mod text;
pub mod upstream;
