//! The protocol core of a small HTTP server that upgrades one path to a
//! WebSocket echo: request routing, the opening handshake, and the state
//! machine that drives an upgraded connection.
//!
//! A request holds its headers in the header map of the HTTP engine; all
//! else is plain values. Sockets, the engine itself and the framing layer
//! belong to the program that links this library.

pub mod echo;
pub mod handshake;
pub mod laws;
pub mod report;
pub mod request;
pub mod router;
pub mod text;
pub mod token;
