//! The text of allocation events and of large-request warnings.

use vstd::prelude::*;
use vstd::string::*;
use crate::text::{digits, push_decimal, push_hex};

verus! {

/// Requests above this many bytes draw a warning when warnings are wanted.
pub const WARNING_THRESHOLD: usize = 1_000_000;

/// A request that concerns a single block.
#[derive(Clone, Copy, Debug, PartialEq, Eq, Structural)]
pub enum Operation {
    Alloc,
    Dealloc,
    AllocZeroed,
}

/// The word that opens the line of an operation.
pub open spec fn operation_name(op: Operation) -> Seq<char> {
    match op {
        Operation::Alloc => "alloc"@,
        Operation::Dealloc => "dealloc"@,
        Operation::AllocZeroed => "alloc_zeroed"@,
    }
}

/// `[address=0x<hex>, size=<dec>, align=<dec>]`.
pub open spec fn descriptor(address: usize, size: usize, align: usize) -> Seq<char> {
    "[address=0x"@ + digits(address as nat, 16) + ", size="@ + digits(size as nat, 10)
        + ", align="@ + digits(align as nat, 10) + "]"@
}

/// One block described for a log line: where it is, how large, how aligned,
/// and whether a call stack follows the description.
#[derive(Clone, Copy, Debug, PartialEq, Eq, Structural)]
pub struct AllocationEvent {
    pub address: usize,
    pub size: usize,
    pub align: usize,
    pub with_trace: bool,
}

impl AllocationEvent {
    /// The event's text when `trace` is the captured call stack: the bare
    /// descriptor, or the descriptor, ` at:`, a line break and the stack.
    pub open spec fn text(self, trace: Seq<char>) -> Seq<char> {
        if self.with_trace {
            descriptor(self.address, self.size, self.align) + " at:\n"@ + trace
        } else {
            descriptor(self.address, self.size, self.align)
        }
    }

    pub fn new(address: usize, size: usize, align: usize, with_trace: bool) -> (e: Self)
        ensures
            e.address == address,
            e.size == size,
            e.align == align,
            e.with_trace == with_trace,
    {
        AllocationEvent { address, size, align, with_trace }
    }

    /// Appends the event's text, with `trace` as its call stack.
    pub fn push_text(&self, out: &mut String, trace: &str)
        ensures
            final(out)@ == old(out)@ + self.text(trace@),
    {
        out.append("[address=0x");
        push_hex(out, self.address);
        out.append(", size=");
        push_decimal(out, self.size);
        out.append(", align=");
        push_decimal(out, self.align);
        out.append("]");
        if self.with_trace {
            out.append(" at:\n");
            out.append(trace);
        }
        assert(out@ =~= old(out)@ + self.text(trace@));
    }

    /// The event's text, with `trace` as its call stack.
    pub fn render(&self, trace: &str) -> (r: String)
        ensures
            r@ == self.text(trace@),
    {
        let mut out = String::new();
        self.push_text(&mut out, trace);
        assert(out@ =~= self.text(trace@));
        out
    }
}

/// The line of a single-block request: its name, a space, and the block's
/// description followed by the call stack `trace`.
pub open spec fn block_line(
    op: Operation,
    address: usize,
    size: usize,
    align: usize,
    trace: Seq<char>,
) -> Seq<char> {
    operation_name(op) + " "@ + AllocationEvent { address, size, align, with_trace: true }.text(
        trace,
    )
}

/// The line of a reallocation: the old block without a call stack, ` to `, and
/// the new block with the call stack `trace`. Both blocks share one alignment.
pub open spec fn realloc_line(
    old_address: usize,
    old_size: usize,
    align: usize,
    new_address: usize,
    new_size: usize,
    trace: Seq<char>,
) -> Seq<char> {
    "realloc "@ + AllocationEvent {
        address: old_address,
        size: old_size,
        align,
        with_trace: false,
    }.text(trace) + " to "@ + AllocationEvent {
        address: new_address,
        size: new_size,
        align,
        with_trace: true,
    }.text(trace)
}

/// The warning for a request above the threshold, followed by the call stack
/// `trace`.
pub open spec fn warning_line(realloc: bool, trace: Seq<char>) -> Seq<char> {
    if realloc {
        "large reallocation at "@ + trace
    } else {
        "large allocation at "@ + trace
    }
}

fn push_operation_name(out: &mut String, op: Operation)
    ensures
        final(out)@ == old(out)@ + operation_name(op),
{
    match op {
        Operation::Alloc => out.append("alloc"),
        Operation::Dealloc => out.append("dealloc"),
        Operation::AllocZeroed => out.append("alloc_zeroed"),
    }
}

/// The line of a single-block request, with `trace` as its call stack.
pub fn block_line_text(op: Operation, address: usize, size: usize, align: usize, trace: &str) -> (r:
    String)
    ensures
        r@ == block_line(op, address, size, align, trace@),
{
    let mut out = String::new();
    push_operation_name(&mut out, op);
    out.append(" ");
    AllocationEvent::new(address, size, align, true).push_text(&mut out, trace);
    assert(out@ =~= block_line(op, address, size, align, trace@));
    out
}

/// The line of a reallocation, with `trace` as the new block's call stack.
pub fn realloc_line_text(
    old_address: usize,
    old_size: usize,
    align: usize,
    new_address: usize,
    new_size: usize,
    trace: &str,
) -> (r: String)
    ensures
        r@ == realloc_line(old_address, old_size, align, new_address, new_size, trace@),
{
    let mut out = String::new();
    out.append("realloc ");
    AllocationEvent::new(old_address, old_size, align, false).push_text(&mut out, trace);
    out.append(" to ");
    AllocationEvent::new(new_address, new_size, align, true).push_text(&mut out, trace);
    assert(out@ =~= realloc_line(old_address, old_size, align, new_address, new_size, trace@));
    out
}

/// The warning for a request above the threshold, with `trace` as its call stack.
pub fn warning_line_text(realloc: bool, trace: &str) -> (r: String)
    ensures
        r@ == warning_line(realloc, trace@),
{
    let mut out = String::new();
    if realloc {
        out.append("large reallocation at ");
    } else {
        out.append("large allocation at ");
    }
    out.append(trace);
    assert(out@ =~= warning_line(realloc, trace@));
    out
}

/// Relies on `std::backtrace::Backtrace::capture` and its `Display` text: the
/// stack of the calling thread, or a short note when capture is switched off by
/// the environment. Nothing is known of its text.
#[verifier::external_body]
fn captured_stack() -> (r: String) {
    std::backtrace::Backtrace::capture().to_string()
}

/// Relies on `backtrace::Backtrace::new` and its `Debug` text: the resolved
/// stack of the calling thread. Nothing is known of its text.
#[verifier::external_body]
fn resolved_stack() -> (r: String) {
    format!("{:?}", backtrace::Backtrace::new())
}

/// The line of a single-block request, with the calling thread's stack.
pub fn block_line_captured(op: Operation, address: usize, size: usize, align: usize) -> (r: String)
    ensures
        exists|trace: Seq<char>| r@ == block_line(op, address, size, align, trace),
{
    let trace = captured_stack();
    block_line_text(op, address, size, align, trace.as_str())
}

/// The line of a reallocation, with the calling thread's stack.
pub fn realloc_line_captured(
    old_address: usize,
    old_size: usize,
    align: usize,
    new_address: usize,
    new_size: usize,
) -> (r: String)
    ensures
        exists|trace: Seq<char>|
            r@ == realloc_line(old_address, old_size, align, new_address, new_size, trace),
{
    let trace = captured_stack();
    realloc_line_text(old_address, old_size, align, new_address, new_size, trace.as_str())
}

/// The warning owed to a request of `size` bytes: none up to the threshold,
/// above it the warning with the calling thread's resolved stack.
pub fn large_request_warning(size: usize, realloc: bool) -> (r: Option<String>)
    ensures
        r is Some <==> size > WARNING_THRESHOLD,
        r matches Some(line) ==> exists|trace: Seq<char>| line@ == warning_line(realloc, trace),
{
    if size > WARNING_THRESHOLD {
        let trace = resolved_stack();
        Some(warning_line_text(realloc, trace.as_str()))
    } else {
        None
    }
}

} // verus!
