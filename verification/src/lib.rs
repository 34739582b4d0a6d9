//! Reporting on the battles and wars of an online game: the game's map as a
//! catalogue of named locations, and the rules by which battle, war and
//! population records are read, updated and shown.

pub mod decimal;
pub mod error;
pub mod map;
pub mod models;
pub mod routes;
pub mod schemas;
pub mod text;
pub mod time;

pub use error::Error;
