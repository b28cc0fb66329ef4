pub mod alignment;
pub mod memory_pool;
pub mod number_line;
pub mod rive_alloc;
