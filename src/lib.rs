//! An HTTP request block: a declarative configuration, a content-addressed
//! identity, URL templating over an environment, validation of script
//! outcomes into an outbound request, and normalisation of the response.
//! The outside work (running scripts, sending the request) is left to the
//! caller, which drives an invocation through `invocation::step`.

pub mod config;
pub mod error;
pub mod identity;
pub mod invocation;
pub mod request;
pub mod response;
pub mod template;
pub mod value;
