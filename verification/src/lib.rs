//! Verified core of the Settings configuration centre: the HTTP route
//! inventory of the API assembly, the domain records, the statements that the
//! service host issues against its three tables together with their meaning,
//! the service host's input and result handling, and the database bootstrap
//! sequence.

pub mod binding;
pub mod bootstrap;
pub mod clock;
pub mod error;
pub mod host;
pub mod keyed;
pub mod laws;
pub mod model;
pub mod routes;
pub mod statement;
pub mod tables;
pub mod text;
