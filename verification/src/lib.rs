//! Core of a small kernel: an interrupt-fed asynchronous input pipeline and a
//! polled block-storage driver.
//!
//! The pipeline runs hardware bytes through a bounded queue and a single-slot
//! wake registry into a pollable scancode stream, which a cooperative executor
//! drives; a layout-aware decoder turns the bytes into key events.  The block
//! driver programs a register file with 28-bit logical block addresses and
//! moves whole 512-byte sectors, padding short writes and truncating short
//! reads, and surfaces the device's error register to the caller.

pub mod ata;
pub mod decoder;
pub mod executor;
pub mod keyboard;
pub mod queue;
