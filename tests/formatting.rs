use logging_allocator::{
    block_line_captured, block_line_text, large_request_warning, push_decimal, push_hex,
    realloc_line_captured, realloc_line_text, warning_line_text, AllocationEvent, Operation,
    WARNING_THRESHOLD,
};

fn decimal(n: usize) -> String {
    let mut s = String::from("n=");
    push_decimal(&mut s, n);
    s
}

fn hex(n: usize) -> String {
    let mut s = String::new();
    push_hex(&mut s, n);
    s
}

#[test]
fn decimal_digits() {
    assert_eq!(decimal(0), "n=0");
    assert_eq!(decimal(7), "n=7");
    assert_eq!(decimal(10), "n=10");
    assert_eq!(decimal(1_000_000), "n=1000000");
    assert_eq!(decimal(usize::MAX), format!("n={}", usize::MAX));
}

#[test]
fn hex_digits() {
    assert_eq!(hex(0), "0");
    assert_eq!(hex(15), "f");
    assert_eq!(hex(16), "10");
    assert_eq!(hex(0xdead_beef), "deadbeef");
    assert_eq!(hex(usize::MAX), format!("{:x}", usize::MAX));
}

#[test]
fn terse_event_text() {
    let event = AllocationEvent::new(0x1000, 16, 8, false);
    assert_eq!(event.render("ignored"), "[address=0x1000, size=16, align=8]");
}

#[test]
fn full_event_text() {
    let event = AllocationEvent::new(0xabc0, 32, 16, true);
    assert_eq!(event.render("frame one"), "[address=0xabc0, size=32, align=16] at:\nframe one");
}

#[test]
fn null_address_text() {
    let event = AllocationEvent::new(0, 0, 1, false);
    assert_eq!(event.render(""), "[address=0x0, size=0, align=1]");
}

#[test]
fn block_lines_per_operation() {
    assert_eq!(
        block_line_text(Operation::Alloc, 0x10, 16, 8, "T"),
        "alloc [address=0x10, size=16, align=8] at:\nT"
    );
    assert_eq!(
        block_line_text(Operation::Dealloc, 0x10, 16, 8, "T"),
        "dealloc [address=0x10, size=16, align=8] at:\nT"
    );
    assert_eq!(
        block_line_text(Operation::AllocZeroed, 0x20, 4, 4, ""),
        "alloc_zeroed [address=0x20, size=4, align=4] at:\n"
    );
}

#[test]
fn realloc_line_has_terse_old_and_full_new() {
    assert_eq!(
        realloc_line_text(0x100, 16, 8, 0x200, 64, "T"),
        "realloc [address=0x100, size=16, align=8] to [address=0x200, size=64, align=8] at:\nT"
    );
}

#[test]
fn captured_lines_start_with_the_description() {
    let line = block_line_captured(Operation::Alloc, 0x10, 16, 8);
    assert!(line.starts_with("alloc [address=0x10, size=16, align=8] at:\n"));
    let line = realloc_line_captured(0x100, 16, 8, 0x200, 64);
    assert!(line.starts_with(
        "realloc [address=0x100, size=16, align=8] to [address=0x200, size=64, align=8] at:\n"
    ));
}

#[test]
fn warning_text() {
    assert_eq!(warning_line_text(false, "T"), "large allocation at T");
    assert_eq!(warning_line_text(true, "T"), "large reallocation at T");
}

#[test]
fn warning_only_above_threshold() {
    assert_eq!(WARNING_THRESHOLD, 1_000_000);
    assert!(large_request_warning(0, false).is_none());
    assert!(large_request_warning(1_000_000, false).is_none());
    let warning = large_request_warning(1_000_001, false).unwrap();
    assert!(warning.starts_with("large allocation at "));
    let warning = large_request_warning(usize::MAX, true).unwrap();
    assert!(warning.starts_with("large reallocation at "));
}
