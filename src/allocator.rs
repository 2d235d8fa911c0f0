//! The logging front end of an allocator.

use std::alloc::System;
use std::cell::Cell;
use std::sync::atomic::{AtomicBool, Ordering};
use vstd::prelude::*;
use crate::event::{
    block_line,
    block_line_captured,
    large_request_warning,
    realloc_line,
    realloc_line_captured,
    warning_line,
    Operation,
    WARNING_THRESHOLD,
};
use crate::guard::run_unless_active;

verus! {

/// std's system allocator, a unit struct: declared with its (empty) list of
/// fields so that verified code can build the value.
#[verifier::external_type_specification]
pub struct ExSystem(System);

/// An allocator front end that hands every request to a delegate and can
/// describe each one. The switch is shared by all threads; every read and write
/// of it is sequentially consistent.
pub struct LoggingAllocator<A = System> {
    enabled: AtomicBool,
    allocator: A,
}

impl LoggingAllocator<System> {
    /// A front end over the system allocator.
    pub fn new(enabled: bool) -> (r: Self)
        ensures
            r.delegate() == System,
    {
        LoggingAllocator::with_allocator(System, enabled)
    }
}

impl<A> LoggingAllocator<A> {
    /// The delegate that serves every request.
    pub closed spec fn delegate(&self) -> A {
        self.allocator
    }

    /// A front end over `allocator`, with logging switched on or off.
    pub fn with_allocator(allocator: A, enabled: bool) -> (r: Self)
        ensures
            r.delegate() == allocator,
    {
        LoggingAllocator { enabled: AtomicBool::new(enabled), allocator }
    }

    /// The delegate, for the caller to hand each request to.
    pub fn allocator(&self) -> (r: &A)
        ensures
            *r == self.delegate(),
    {
        &self.allocator
    }

    pub fn enable_logging(&self) {
        self.enabled.store(true, Ordering::SeqCst)
    }

    pub fn disable_logging(&self) {
        self.enabled.store(false, Ordering::SeqCst)
    }

    /// Whether logging is on. Another thread may switch it at any moment, so
    /// nothing is promised of the answer.
    pub fn logging_enabled(&self) -> bool {
        self.enabled.load(Ordering::SeqCst)
    }

    /// After the delegate has served a single-block request: reads the switch
    /// and does what `log_block_when` does with it.
    pub fn log_block<E: FnOnce(String)>(
        &self,
        guard: &Cell<bool>,
        op: Operation,
        address: usize,
        size: usize,
        align: usize,
        emit: E,
    ) -> (logged: bool)
        requires
            forall|line: String| emit.requires((line,)),
        ensures
            logged ==> exists|line: String, trace: Seq<char>|
                line@ == block_line(op, address, size, align, trace) && emit.ensures((line,), ()),
    {
        let enabled = self.logging_enabled();
        log_block_when(enabled, guard, op, address, size, align, emit)
    }

    /// After the delegate has moved a block: reads the switch and does what
    /// `log_realloc_when` does with it.
    pub fn log_realloc<E: FnOnce(String)>(
        &self,
        guard: &Cell<bool>,
        old_address: usize,
        old_size: usize,
        align: usize,
        new_address: usize,
        new_size: usize,
        emit: E,
    ) -> (logged: bool)
        requires
            forall|line: String| emit.requires((line,)),
        ensures
            logged ==> exists|line: String, trace: Seq<char>|
                line@ == realloc_line(old_address, old_size, align, new_address, new_size, trace)
                    && emit.ensures((line,), ()),
    {
        let enabled = self.logging_enabled();
        log_realloc_when(enabled, guard, old_address, old_size, align, new_address, new_size, emit)
    }
}

/// What a single-block request does with the switch's value `enabled`: when it
/// is off, nothing is logged, `emit` is not called (it need not even be
/// callable) and the flag `guard` is not touched; when it is on, the flag is
/// raised and `log_block_unless_active` decides.
pub fn log_block_when<E: FnOnce(String)>(
    enabled: bool,
    guard: &Cell<bool>,
    op: Operation,
    address: usize,
    size: usize,
    align: usize,
    emit: E,
) -> (logged: bool)
    requires
        enabled ==> forall|line: String| emit.requires((line,)),
    ensures
        !enabled ==> !logged,
        logged ==> exists|line: String, trace: Seq<char>|
            line@ == block_line(op, address, size, align, trace) && emit.ensures((line,), ()),
{
    if enabled {
        let was_active = guard.replace(true);
        log_block_unless_active(was_active, guard, op, address, size, align, emit)
    } else {
        false
    }
}

/// With logging on and the flag `guard` raised, where `was_active` is what it
/// held before: a thread already inside a guarded callback logs nothing and
/// does not call `emit` (which need not even be callable then); any other builds the request's line (with the thread's stack) under the guard,
/// hands exactly that line to `emit`, and lowers the flag.
pub fn log_block_unless_active<E: FnOnce(String)>(
    was_active: bool,
    guard: &Cell<bool>,
    op: Operation,
    address: usize,
    size: usize,
    align: usize,
    emit: E,
) -> (logged: bool)
    requires
        !was_active ==> forall|line: String| emit.requires((line,)),
    ensures
        logged == !was_active,
        logged ==> exists|line: String, trace: Seq<char>|
            line@ == block_line(op, address, size, align, trace) && emit.ensures((line,), ()),
{
    run_unless_active(
        was_active,
        guard,
        (move ||
            requires
                forall|line: String| emit.requires((line,)),
            ensures
                exists|line: String, trace: Seq<char>|
                    line@ == block_line(op, address, size, align, trace)
                        && emit.ensures((line,), ()),
            {
                let line = block_line_captured(op, address, size, align);
                emit(line);
            }),
    )
}

/// What a reallocation does with the switch's value `enabled`, as
/// `log_block_when`.
pub fn log_realloc_when<E: FnOnce(String)>(
    enabled: bool,
    guard: &Cell<bool>,
    old_address: usize,
    old_size: usize,
    align: usize,
    new_address: usize,
    new_size: usize,
    emit: E,
) -> (logged: bool)
    requires
        enabled ==> forall|line: String| emit.requires((line,)),
    ensures
        !enabled ==> !logged,
        logged ==> exists|line: String, trace: Seq<char>|
            line@ == realloc_line(old_address, old_size, align, new_address, new_size, trace)
                && emit.ensures((line,), ()),
{
    if enabled {
        let was_active = guard.replace(true);
        log_realloc_unless_active(
            was_active,
            guard,
            old_address,
            old_size,
            align,
            new_address,
            new_size,
            emit,
        )
    } else {
        false
    }
}

/// A reallocation with logging on and the flag `guard` raised, as
/// `log_block_unless_active`: the line describes the old block and then the
/// new one.
pub fn log_realloc_unless_active<E: FnOnce(String)>(
    was_active: bool,
    guard: &Cell<bool>,
    old_address: usize,
    old_size: usize,
    align: usize,
    new_address: usize,
    new_size: usize,
    emit: E,
) -> (logged: bool)
    requires
        !was_active ==> forall|line: String| emit.requires((line,)),
    ensures
        logged == !was_active,
        logged ==> exists|line: String, trace: Seq<char>|
            line@ == realloc_line(old_address, old_size, align, new_address, new_size, trace)
                && emit.ensures((line,), ()),
{
    run_unless_active(
        was_active,
        guard,
        (move ||
            requires
                forall|line: String| emit.requires((line,)),
            ensures
                exists|line: String, trace: Seq<char>|
                    line@ == realloc_line(
                        old_address,
                        old_size,
                        align,
                        new_address,
                        new_size,
                        trace,
                    ) && emit.ensures((line,), ()),
            {
                let line = realloc_line_captured(
                    old_address,
                    old_size,
                    align,
                    new_address,
                    new_size,
                );
                emit(line);
            }),
    )
}

/// Before a request of `size` bytes reaches the delegate: up to the threshold,
/// nothing is done, `emit` is not called (it need not even be callable) and the
/// flag `guard` is not touched; above it, the flag is raised and
/// `warn_unless_active` decides. The logging switch plays no part.
pub fn warn_if_large<E: FnOnce(String)>(guard: &Cell<bool>, size: usize, realloc: bool, emit: E) -> (warned: bool)
    requires
        size > WARNING_THRESHOLD ==> forall|line: String| emit.requires((line,)),
    ensures
        warned ==> size > WARNING_THRESHOLD,
        warned ==> exists|line: String, trace: Seq<char>|
            line@ == warning_line(realloc, trace) && emit.ensures((line,), ()),
{
    if size > WARNING_THRESHOLD {
        let was_active = guard.replace(true);
        warn_unless_active(was_active, guard, size, realloc, emit)
    } else {
        false
    }
}

/// With the flag `guard` raised, where `was_active` is what it held before: a
/// request above the threshold from a thread that is not inside a guarded
/// callback draws the warning (with the thread's resolved stack), built under
/// the guard and handed to `emit`. Otherwise `emit` is not called. The flag is
/// lowered when it was not active before.
pub fn warn_unless_active<E: FnOnce(String)>(
    was_active: bool,
    guard: &Cell<bool>,
    size: usize,
    realloc: bool,
    emit: E,
) -> (warned: bool)
    requires
        !was_active && size > WARNING_THRESHOLD ==> forall|line: String| emit.requires((line,)),
    ensures
        warned == (!was_active && size > WARNING_THRESHOLD),
        warned ==> exists|line: String, trace: Seq<char>|
            line@ == warning_line(realloc, trace) && emit.ensures((line,), ()),
{
    let ran = run_unless_active(
        was_active,
        guard,
        (move ||
            requires
                size > WARNING_THRESHOLD ==> forall|line: String| emit.requires((line,)),
            ensures
                size > WARNING_THRESHOLD ==> exists|line: String, trace: Seq<char>|
                    line@ == warning_line(realloc, trace) && emit.ensures((line,), ()),
            {
                let warning = large_request_warning(size, realloc);
                match warning {
                    Some(line) => emit(line),
                    None => {},
                }
            }),
    );
    ran && size > WARNING_THRESHOLD
}

} // verus!
