//! Verified core of a controller for the Yowu Selkirk 4 lighting headset.
//!
//! The Bluetooth side ([`bt`]) holds the wire format of a lighting command and
//! the state machine that brings the link from "no adapter known" to "ready"
//! and then dispatches commands. The presentation side ([`ui`]) holds what the
//! window shows for each state and which command each control stands for.
//! Between the two lies the command queue ([`bridge`]). Radio traffic, timers
//! and drawing are left to the program around this crate, which performs the
//! actions that the state machine asks for.

pub mod bridge;
pub mod bt;
pub mod ui;
