//! Authentication and authorization.

pub mod jwt;
pub mod middleware;
pub mod permissions;
pub mod resources;
pub mod roles;
