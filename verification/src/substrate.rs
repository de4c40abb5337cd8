//! The substrate types: entities, provenance, privacy, rings, tokens and the
//! workspace context.

pub mod primitive;
pub mod privacy;
pub mod ring;
pub mod float_bits;
pub mod generation;
pub mod stream;
pub mod error;
pub mod time;
pub mod sensor;
pub mod entity;
pub mod attention;
pub mod biometric;
pub mod posture;
pub mod state;
pub mod provenance;
pub mod token;
pub mod workspace;
