use task_core::trap::{trap_cause, TrapCause, INTERRUPT_BIT};

#[test]
fn exception_codes_are_classified() {
    assert_eq!(trap_cause(8), TrapCause::UserEnvCall);
    assert_eq!(trap_cause(7), TrapCause::StoreFault);
    assert_eq!(trap_cause(15), TrapCause::StorePageFault);
    assert_eq!(trap_cause(2), TrapCause::IllegalInstruction);
}

#[test]
fn other_exceptions_are_unsupported() {
    for code in [0usize, 1, 3, 4, 5, 6, 9, 12, 13, 14, 16, 100] {
        assert_eq!(trap_cause(code), TrapCause::Other, "code {}", code);
    }
}

#[test]
fn supervisor_timer_interrupt_is_classified() {
    assert_eq!(INTERRUPT_BIT, 1usize << (usize::BITS - 1));
    assert_eq!(trap_cause(INTERRUPT_BIT | 5), TrapCause::SupervisorTimer);
}

#[test]
fn other_interrupts_are_unsupported() {
    for code in [0usize, 1, 4, 8, 9, 2] {
        assert_eq!(trap_cause(INTERRUPT_BIT | code), TrapCause::Other, "code {}", code);
    }
    // code 8 is a system call as an exception but not as an interrupt
    assert_eq!(trap_cause(INTERRUPT_BIT | 8), TrapCause::Other);
}
