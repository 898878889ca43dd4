//! Planning and measurement logic for a benchmark of memory-to-memory
//! copies: a DMA engine against a CPU loop.
//!
//! The library derives the transfer a DMA channel is programmed with, fills
//! and checks the buffers, walks a benchmark case through its steps and
//! writes the report. Touching the hardware is left to the caller: the
//! library takes addresses and cycle counts as numbers and hands back what to
//! program and what to print.

pub mod bench;
pub mod buffer;
pub mod element;
pub mod report;
pub mod timer;
pub mod transfer;
