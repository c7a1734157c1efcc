//! Request-scoped state shared by the API surface.

pub mod user;
