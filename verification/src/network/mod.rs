//! The game side of the network layer: per-session player state, the packet
//! router and the decisions taken for each client packet. Sockets, tasks and
//! channels live outside the library.
pub mod handler;
pub mod session;
