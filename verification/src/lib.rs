//! The wasmRS protocol: RSocket frames exchanged between a WebAssembly host
//! and guest, their binary encoding, and the decisions of a socket.
use vstd::prelude::*;

pub mod actions;
pub mod component;
pub mod error;
pub mod frame;
pub mod guest;
pub mod header;
pub mod kinds;
pub mod msgpack;
pub mod payload;
pub mod record;
pub mod schema;
pub mod socket;
pub mod text;
pub mod util;

verus! {
} // verus!
