//! Verified core of a handheld Bluetooth control panel.
//!
//! The library models the orchestration logic of the applet: the roster of
//! discovered devices, the scan and connect state machines driven by two
//! background workers, and the frame loop's command/state contract.  All
//! radio, rendering and runtime plumbing lives outside the library.

pub mod connect;
pub mod device;
pub mod panel;
pub mod roster;
pub mod scan;
pub mod status;
