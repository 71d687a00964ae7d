//! Reading and writing word-sized values in the memory of another process.
//!
//! Values no larger than the atomic access width are moved as one whole,
//! naturally aligned window, so that a transfer never crosses a boundary the
//! target's own loads and stores would not cross.
//!
//! Permission to read from or write to another process is governed by the
//! same access check as attaching a debugger to it.
mod transfer;
mod window;

pub use window::{
    containing_window, load_from_window, store_into_window, window_of, AtomicWindow,
    ATOMIC_WIDTH,
};
pub use transfer::{
    check_byte_count, process_load, process_read, process_read_bytes, process_store,
    process_write, process_write_bytes, Error,
};
