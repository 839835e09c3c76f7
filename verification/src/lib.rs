//! Planning of bootable, partitioned disk images for a virtual device.
//!
//! The library decides what is written where: how source images are laid out
//! in a backing file, which sectors each partition occupies, which external
//! tools are run with which arguments, and in which order the stages follow
//! each other. It touches no file and starts no process itself. A caller
//! carries out each step and reports back what it observed.

pub mod components;
pub mod disk;
pub mod error;
pub mod pipeline;
pub mod tool;
