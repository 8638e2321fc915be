//! Fixed-size, segmented address space for an 8-bit machine emulator: a flat
//! 16 KiB byte store partitioned into a read-only program region, a scratch
//! RAM region and a video RAM region, with address-based write protection and
//! a privileged bulk-load operation for installing images.

pub mod memory;
