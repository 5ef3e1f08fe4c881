//! Handshake state machines of a peer-to-peer identity and endpoint
//! authentication protocol that runs over onion services.
//!
//! The crate holds the decisions of the protocol and none of its I/O. Each
//! handshake is a state machine that is stepped by a driver: the driver owns
//! the sockets, the RPC session and the signing keys' arithmetic, hands the
//! machine what it observed, and performs what the machine asks for next.
//!
//! - `client_proof`: the byte string that a connecting peer signs.
//! - `identity_client`, `identity_server`: the two sides of the handshake
//!   by which a peer is granted an endpoint.
//! - `endpoint_client`, `endpoint_server`: the two sides of the handshake
//!   by which a peer opens a channel on its endpoint.
//! - `context`: the handshakes in flight of one peer, by their handles.
//! - `laws`: what holds of the handshakes, whatever the peers and the
//!   driver do.
//! - `document`, `encoding`, `keys`, `rpc`, `service_id`, `table`,
//!   `listeners`, `transport`, `error`: what the above are made of.

pub mod client_proof;
pub mod context;
pub mod document;
pub mod encoding;
pub mod endpoint_client;
pub mod endpoint_server;
pub mod error;
pub mod identity_client;
pub mod identity_server;
pub mod keys;
pub mod laws;
pub mod listeners;
pub mod rpc;
pub mod service_id;
pub mod table;
pub mod transport;
