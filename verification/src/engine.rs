//! The engine: the verified operations each controller runs against the
//! store, one module per entity.

pub mod auth_user;
pub mod member;
pub mod team;
pub mod user;
