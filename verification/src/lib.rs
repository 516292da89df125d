//! Session orchestration for a remote-desktop streaming host.
//!
//! The host streams its screen and sound to viewers and takes their
//! pointer and controller input back. This crate holds what the host
//! decides: how an input packet or text is decoded, what a command does to
//! the pointer and to the virtual controller, who is registered with the
//! signaling server and whom a frame goes to, and when the media pipeline
//! starts and stops. Sockets, devices and the media engine are outside;
//! they hand in plain values and carry out what comes back.
//!
//! - [`codec`]: the nine-byte packet and its JSON text form.
//! - [`binary32`], [`binary64`]: the floating-point fields of a command,
//!   read from their bit patterns.
//! - [`gamepad`], [`actuation`]: the controller's state and the effect of
//!   each command.
//! - [`transport`]: the input server's reaction to the events of its
//!   endpoint, and the pace of its loop.
//! - [`registry`], [`session`], [`pipeline`]: the peers, the routing of
//!   frames, and the lifecycle of the one media pipeline.
//! - [`config`], [`json`], [`monitor`], [`discovery`], [`failure`]: the
//!   settings and their document, the state behind the window, the
//!   announcement, and how far each kind of failure reaches.

pub mod actuation;
pub mod binary32;
pub mod binary64;
pub mod codec;
pub mod config;
pub mod discovery;
pub mod failure;
pub mod gamepad;
pub mod json;
pub mod monitor;
pub mod pipeline;
pub mod registry;
pub mod session;
pub mod transport;
