//! A single-tool invocation server library: a static catalog with one tool
//! ("get-weather"), a dispatcher that validates and routes calls, and the
//! decision pipeline behind the tool, which chains a geocoding lookup and a
//! weather lookup. The transport loop and the HTTP client are external
//! collaborators: they perform the requests this library emits and hand the
//! outcomes back as events.

pub mod dispatch;
pub mod envelope;
pub mod handler;
pub mod messages;
pub mod pipeline;
pub mod registry;
