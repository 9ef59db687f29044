//! Mount-state machine for removable-storage-backed logical volumes.
//!
//! A volume can be exposed in one of three mutually exclusive modes:
//! unmounted, mounted internally (attached to a loopback device with its
//! partitions mounted locally and nested disk images discovered), or
//! exported externally as a USB mass-storage endpoint.  This crate holds
//! the decision logic of those transitions; the surrounding program
//! performs the kernel operations the machine asks for and hands their
//! outcomes back in as plain values.

pub mod persist;
pub mod textfmt;
pub mod mount;
pub mod vdrive;
pub mod adapter;
