//! Detection-and-mount orchestration for recovering a non-bootable Linux disk
//! that is attached to a repair host.
//!
//! The library decides; it never touches a device. Every stage takes what the
//! tools printed as plain text and answers with the steps to perform next:
//!
//! * [`scan`] reads the partition table and the filesystem signatures,
//! * [`ade`] plans the unlock of an encrypted disk,
//! * [`mount`] and [`volumes`] import volume groups and list logical volumes,
//! * [`detect`] finds the partition that holds the operating system,
//! * [`prepare_chroot`] and [`environment`] assemble the tree for the repair
//!   actions,
//! * [`helper`] plans the teardown.
//!
//! Plans are vectors of [`step::Task`]; the driver that carries them out is
//! not part of the library.

pub mod action;
pub mod ade;
pub mod cli;
pub mod constants;
pub mod detect;
pub mod distro;
pub mod environment;
pub mod global;
pub mod helper;
pub mod lines;
pub mod mount;
pub mod number;
pub mod nvme;
pub mod partition;
pub mod pipeline;
pub mod prepare_chroot;
pub mod release;
pub mod run;
pub mod scan;
pub mod step;
pub mod telemetry;
pub mod text;
pub mod volumes;
