//! The traits and small types every curve is built on.
pub mod generator;
pub mod merge;
pub mod space;
