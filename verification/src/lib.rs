//! Verified core of the nsuite Switch plugin toolkit: memory-pool arithmetic,
//! GPU bootstrap bookkeeping, controller input frames and logger decisions.

pub mod ncommon;
pub mod ngpu;
pub mod ninput;
pub mod nmem;
