//! Recovery and erase logic for Texas Instruments MSPM0 devices.
//!
//! [`mspm0_dssm`] executes mailbox commands and the factory reset on a locked
//! device; [`cmd`] holds the flash commands that make use of it. Neither does
//! any I/O: [`machine`] explains how they are driven.

pub mod cmd;
pub mod machine;
pub mod mspm0_dssm;
pub mod text;
