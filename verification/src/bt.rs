//! The Bluetooth side: command frames, device identity and the link state
//! machine.

pub mod device;
pub mod frame;
pub mod laws;
pub mod link;
pub mod runs;

pub use device::{BtInfo, HeadsetType};
pub use frame::{command, BtCommands, CmdData};
pub use link::{Action, BtToGui, ConnectionState, Event, Fault, Link, Phase};
