//! Driver core for a persistent external compiler process.
//!
//! The library holds the verified logic of a driver that keeps one long-lived
//! worker process alive across many compile invocations and speaks a minimal
//! line-oriented protocol to it: encoding compile requests into the wire
//! format, classifying response lines, deciding when the worker must be
//! respawned or torn down, and mapping spawn and write failures to the
//! driver's error values. The unverified shell that owns the OS process and
//! its pipes calls into these functions for every decision it makes.

pub mod failure;
pub mod paths;
pub mod protocol;
pub mod reader;
pub mod supervisor;
pub mod wire;
