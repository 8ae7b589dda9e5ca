use task_core::syscall::{region_accepted, sys_write, UserWindows, WriteOutcome, FD_STDOUT};

fn windows() -> UserWindows {
    UserWindows { stack_top: 0x8000, stack_size: 0x1000, as_low: 0x8040_0000, as_high: 0x8050_0000 }
}

#[test]
fn write_inside_stack_returns_length() {
    let w = windows();
    let r = sys_write(FD_STDOUT, 0x7800, 16, &w);
    assert_eq!(r, WriteOutcome::Emit { buf: 0x7800, len: 16 });
    assert_eq!(r.return_value(), 16);
}

#[test]
fn write_whole_stack_but_last_byte() {
    let w = windows();
    let r = sys_write(FD_STDOUT, 0x7000, 0xfff, &w);
    assert_eq!(r.return_value(), 0xfff);
}

#[test]
fn write_to_stderr_is_rejected() {
    let w = windows();
    let r = sys_write(2, 0x7800, 16, &w);
    assert_eq!(r, WriteOutcome::Rejected);
    assert_eq!(r.return_value(), -1);
}

#[test]
fn write_inside_address_space_accepted() {
    let w = windows();
    let r = sys_write(FD_STDOUT, 0x8041_0000, 100, &w);
    assert_eq!(r.return_value(), 100);
}

#[test]
fn region_crossing_stack_bottom_rejected() {
    let w = windows();
    assert!(!region_accepted(&w, 0x6ff0, 0x20));
    assert_eq!(sys_write(FD_STDOUT, 0x6ff0, 0x20, &w).return_value(), -1);
}

#[test]
fn region_crossing_stack_top_rejected() {
    let w = windows();
    assert!(!region_accepted(&w, 0x7ff0, 0x20));
}

#[test]
fn region_ending_at_window_top_rejected() {
    let w = windows();
    assert!(!region_accepted(&w, 0x7ff0, 0x10));
    assert!(region_accepted(&w, 0x7ff0, 0x0f));
    assert!(!region_accepted(&w, 0x8040_0000, 0x10_0000));
}

#[test]
fn region_crossing_address_space_rejected() {
    let w = windows();
    assert!(!region_accepted(&w, 0x804f_fff0, 0x20));
    assert!(!region_accepted(&w, 0x803f_fff0, 0x20));
}

#[test]
fn region_in_neither_window_rejected() {
    let w = windows();
    assert!(!region_accepted(&w, 0x1000, 8));
}

#[test]
fn region_wrapping_past_top_of_memory_rejected() {
    let w = UserWindows { stack_top: usize::MAX, stack_size: 0x1000, as_low: 0, as_high: 0x10 };
    assert!(!region_accepted(&w, usize::MAX - 4, 8));
    assert!(!region_accepted(&w, 2, usize::MAX));
}

#[test]
fn empty_region_at_stack_bottom_accepted() {
    let w = windows();
    assert!(region_accepted(&w, 0x7000, 0));
    assert_eq!(sys_write(FD_STDOUT, 0x7000, 0, &w).return_value(), 0);
}
