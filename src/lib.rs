//! Per-request network anonymization core of the forloop browser, together
//! with its fingerprint defenses, user interface state, configuration and
//! sandbox policy.

// Shared helpers: strings, random draws, deterministic hashing.
pub mod hashing;
pub mod random;
pub mod text;

// The network anonymization core.
pub mod circuit;
pub mod headers;
pub mod network;
pub mod tls_fingerprint;
pub mod tor_integration;
pub mod traffic_shaper;

// Fingerprint defenses.
pub mod audio;
pub mod fingerprint;
pub mod fonts;
pub mod hardware;
pub mod navigator;
pub mod screen;
pub mod timing;
pub mod webgl;

// User interface, configuration and process sandbox.
pub mod config;
pub mod sandbox;
pub mod ui;
