//! Configuration, planning and event logic of an application virtual-machine
//! manager: app and host configuration, expansion of argument placeholders,
//! the plan of host actions that prepares a VM, the network helper's
//! commands, and the framing and handling of guest-agent events.

pub mod config;
pub mod guest;
pub mod netutil;
pub mod params;
pub mod path;
pub mod text;
pub mod vmm;
pub mod xvsock;
