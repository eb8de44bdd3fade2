//! Control layer for a live-video compositing and streaming engine.
//!
//! The layer sits on top of an externally managed media graph (capture
//! sources, a compositor, encoders, muxers, network sinks).  It decides how
//! the graph is arranged and retuned over time; the embedder performs the
//! actual node creation, linking and property writes and reports their
//! outcomes back.  Every decision here is verified:
//!
//! - `scene_switcher` arranges named scenes of composited sources and drives
//!   timed alpha fades between them;
//! - `hardware_accel` picks a video encoder backend, falling back in a fixed
//!   priority order under resource pressure;
//! - `streaming` manages simultaneous streaming destinations and adapts the
//!   encoder bitrate from measured throughput;
//! - `overlays` places text and image overlays and rotates overlay messages;
//! - `graph` mirrors the state of the external media graph;
//! - `devices` and `recorder` classify capture nodes reported by the sound
//!   server registry.

pub mod devices;
pub mod error;
pub mod graph;
pub mod hardware_accel;
pub mod overlays;
pub mod recorder;
pub mod scene_switcher;
pub mod streaming;
