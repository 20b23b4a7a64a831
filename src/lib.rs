//! Boot-time memory topology and x86-64 segmentation encodings: the firmware
//! memory map less the kernel and rinit images, the arena for the first
//! page-table pages, and segment selectors and descriptors bit for bit.

pub mod coverage;
pub mod init;
pub mod region;
pub mod segmentation;
