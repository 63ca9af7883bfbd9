//! Peer-to-peer clipboard synchronisation: the rules of a mesh node.
//!
//! Every decision a node takes stands here as a function on plain values with a
//! proved contract: how text is sealed and opened, which side of a pair dials,
//! which messages are accepted, when a clipboard change is announced. Sockets,
//! windows, the clock of the poll loop and the operating system's clipboard are
//! driven by the program around this library.
pub mod clipboard;
pub mod config;
pub mod connection;
pub mod crypto;
pub mod discovery;
pub mod json;
pub mod outside;
pub mod p2p_client;
pub mod p2p_server;
pub mod peers;
pub mod service;
pub mod sync;
pub mod text;
pub mod tray;
pub mod websocket;
