//! The operations the transport layer invokes, one module per entity:
//! each wraps the engine's statements, classifies failures into response
//! classes, and wraps results in the success envelope.

pub mod auth_user;
pub mod team;
pub mod user;
