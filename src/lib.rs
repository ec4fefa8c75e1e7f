//! Subscriber statistics for a dashboard widget: the upstream list-info
//! outcome is mapped to a single display frame, and the server's startup
//! configuration is resolved before any request is served.

pub mod config;
pub mod decimal;
pub mod response;
