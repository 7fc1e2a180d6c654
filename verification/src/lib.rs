//! Verified core of a desktop media-metadata inspector.
//!
//! The crate models the stream/parameter catalogue of a native metadata
//! engine and the logic built on top of it: parsing the engine's
//! self-describing parameter catalogue, classifying parameters as built-in
//! or externally discovered, merging user configuration with the discovered
//! catalogue, and filtering resolved property values.  The engine itself,
//! the GUI shell and on-disk persistence are outside collaborators; they
//! hand this crate plain values and take plain values back.

pub mod config;
pub mod controller;
pub mod media_info;
pub mod paths;
pub mod streams;
pub mod text;
