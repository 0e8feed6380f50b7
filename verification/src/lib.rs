//! Core library of a device agent for the "entropy protocol" simulation.
//!
//! The library holds the verified logic of the agent: the shared game-state
//! store and its economic update rules, the canonical request signer that
//! authenticates every outbound call, the network-probe scoring, the device
//! validation rules, and the decision logic of the periodic sync task.
//! Network and file I/O, clocks behind the callers' control, and transports
//! live outside the library and hand it plain values.

pub mod arith;
pub mod combat;
pub mod crypto;
pub mod device;
pub mod identity;
pub mod mining;
pub mod moltbook;
pub mod probe;
pub mod radar;
pub mod signer;
pub mod state;
pub mod surface;
pub mod sync;
pub mod text;
pub mod types;
pub mod websocket;
