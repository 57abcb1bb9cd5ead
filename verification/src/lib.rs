//! Process and virtual-memory core of a small x86_64 teaching kernel.
//!
//! The crate holds the scheduler, the per-process address-space bookkeeping,
//! the counting semaphores and the small user-side library that sits on top of
//! them. Hardware work (page-table edits, port I/O, trap entry) is left to the
//! embedding kernel: every function here either decides or records, and hands
//! back the memory action that the kernel has to carry out.

pub mod apic;
pub mod context;
pub mod data;
pub mod frames;
pub mod heap;
pub mod input;
pub mod laws;
pub mod manager;
pub mod memory;
pub mod pid;
pub mod process;
pub mod resource;
pub mod service;
pub mod stack;
pub mod sync;
pub mod syscall;
pub mod user;
pub mod utils;
pub mod vm;
