//! Core logic of a shader wallpaper: a user-supplied fragment shader is drawn
//! as a background layer on a display output, fed with elapsed time, a trail of
//! recent pointer positions, and a live audio spectrum.
//!
//! This crate holds the decision and data logic: the launch configuration, the
//! anchor-edge set, the pointer trail, the audio sample plumbing with its
//! single-slot mailbox, and the per-output surface lifecycle driven by display
//! server events. The display-server protocol, the GPU calls and the audio
//! device itself live outside, in the binary that embeds this crate.

pub mod anchor;
pub mod audio;
pub mod config;
pub mod pointer;
pub mod session;
