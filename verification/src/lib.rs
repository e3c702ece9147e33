//! A tool server's protocol core: a JSON envelope model, a registry of named
//! tools, and a dispatcher that parses, validates and routes each inbound
//! request to exactly one reply or one tool invocation — plus the Tavily
//! search and extract tools' data model, parameter rules and formatting.
//! The runtime around it (NATS transport, HTTP tool bodies) lives outside the
//! verified library and only performs what was decided here.
pub mod json;
pub mod registry;
pub mod protocol;
pub mod dispatch;
pub mod tavily;
pub mod format;
pub mod runtime;
pub mod ser;
