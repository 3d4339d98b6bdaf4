//! Launcher for the FINAL FANTASY VII and VIII re-releases: picks the game
//! executable, builds its launch context and settings files, and drives the
//! shared-memory handshake that hands configuration to the game process.
pub mod channel;
pub mod codec;
pub mod config;
pub mod launch;
pub mod context;
pub mod settings;
pub mod handshake;
