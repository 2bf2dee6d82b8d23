//! Core of a team/user/membership management backend.
//!
//! The library holds the verified parts of the service: the data model,
//! the error-code taxonomy, the pagination contract shared by every list
//! operation, and the cascading-delete-with-compensation workflow for
//! auth users. Transport glue (HTTP routing, GraphQL schema wiring,
//! process bootstrap) lives outside the library.

pub mod controller;
pub mod db;
pub mod dto;
pub mod engine;
pub mod error;
pub mod model;
pub mod rows;
