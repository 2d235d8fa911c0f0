//! A pass-through allocator front end that can describe every request it sees.
//!
//! The library holds the parts that decide and compute: the logging switch, the
//! per-thread re-entrancy guard, and the text of each event. Installing the
//! allocator, calling the delegate with raw pointers and writing to the
//! diagnostic stream are left to the program that uses it.

mod allocator;
mod event;
mod guard;
mod text;

pub use allocator::{
    log_block_unless_active,
    log_block_when,
    log_realloc_unless_active,
    log_realloc_when,
    warn_if_large,
    warn_unless_active,
    LoggingAllocator,
};
pub use guard::{run_guarded, run_unless_active};
pub use event::{
    block_line_captured,
    block_line_text,
    large_request_warning,
    realloc_line_captured,
    realloc_line_text,
    warning_line_text,
    AllocationEvent,
    Operation,
    WARNING_THRESHOLD,
};
pub use text::{push_decimal, push_hex};
