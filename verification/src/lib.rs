//! Virtual-memory bootstrap layer of a bare-metal kernel.
//!
//! This library defines the board's address-space geometry, derives the
//! page-aligned descriptors of the three kernel image regions (boot-core
//! stack, read-only code/data, read-write data/bss), installs the identity
//! mapping of the kernel binary into the translation-table singleton, and
//! provides the alignment, non-overlap and placement checks over that layout.

pub mod attributes;
pub mod checks;
pub mod common;
pub mod descriptor;
pub mod layout;
pub mod mmu;
pub mod params;
pub mod sync;
pub mod translation_table;
