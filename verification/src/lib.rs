//! Verified core of the Remote Terminal Cloud agent: protocol types, configuration
//! resolution, preference sanitisation, shell selection, error classification,
//! service-output parsing and the decision logic of the agent's runtime.
pub mod text;
pub mod clock;
pub mod protocol;
pub mod config;
pub mod fingerprint;
pub mod preferences;
pub mod platform;
pub mod errors;
pub mod runtime;
pub mod shell;
pub mod service;
pub mod desktop;
pub mod packaging;
pub mod release;
pub mod cli;
pub mod installer;
