//! Userspace side of an execution monitor: the wire record that the kernel
//! probe writes, its decoding and reporting, the consumption loop's decisions
//! and the start-up / shut-down controller.
pub mod consumer;
pub mod event;
pub mod lifecycle;
pub mod report;
pub mod text;
