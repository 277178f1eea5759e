//! The entity stores that the aggregates own, and their models.

pub mod requests;
pub mod shape;
