//! A helper that puts the tree of a root filesystem together from the storage
//! devices of a system, and takes it apart again.
//!
//! The library decides and never acts. It knows the identity of every
//! device, subvolume and dataset, holds devices against the references of
//! configuration files, reads what the storage tools print, and says which
//! command or question comes next; running the commands and asking the user
//! is left to whoever drives it. Every decision is specified over the texts
//! and tables it is made from, and proved.
pub mod args;
pub mod block_device;
pub mod btrfs;
pub mod capability;
pub mod depends;
pub mod features;
pub mod luks;
pub mod mount;
pub mod names;
pub mod planner;
pub mod session;
pub mod table;
pub mod text;
pub mod zfs;
