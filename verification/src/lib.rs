//! Live audio distribution: a registry of named streams, each holding the
//! latest chunk pushed by its producer, and the per-listener polling loop
//! that forwards a chunk whenever it changes.

pub mod audio_coding;
pub mod auth_logic;
pub mod chunk_buffer;
pub mod db;
pub mod distribution;
pub mod fingerprint;
pub mod laws;
pub mod registry;
pub mod server;
pub mod stream;
pub mod text;
pub mod websockets;
