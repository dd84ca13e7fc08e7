//! A process-supervision and crash-diagnostics library.
//!
//! The library decides whether a child process's termination counts as a
//! crash, and, when it does, assembles the diagnostic report: transcoded
//! child output, a host hardware/OS inventory, and a timestamp-named log
//! document. All decision logic and text assembly is verified; the
//! surrounding process spawning, file writing and user notification live
//! outside the library.

pub mod chars;
pub mod classify;
pub mod digits;
pub mod gpu;
pub mod inventory;
pub mod report;
pub mod supervisor;
pub mod timestamp;
pub mod transcode;
