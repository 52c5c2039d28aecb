//! Core hardware abstraction for a console with an application processor and
//! an I/O coprocessor that shares no cache coherency with it.
//!
//! - [`cache`]: cache-line ranges for the cache primitives, and the L2
//!   feature sequence;
//! - [`ipc`] and [`ios`]: the request/reply channel to the coprocessor, its
//!   register layouts, its requests and the handshake that carries them;
//! - [`irq`]: the interrupt controller's arbitration and handler table;
//! - [`exi`], [`sysconf`], [`vi`]: the expansion bus and its USB adapter,
//!   the system settings file, the video interface.
//!
//! Nothing here touches memory-mapped registers or runs cache instructions:
//! the library decides what is to be done and the caller does it, reporting
//! back what it read.

pub mod bits;
pub mod cache;
pub mod draw;
pub mod exi;
pub mod ios;
pub mod ipc;
pub mod irq;
pub mod sysconf;
pub mod vi;
