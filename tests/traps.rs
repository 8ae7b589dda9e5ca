use task_core::task::{Schedule, TaskManager, TaskStatus};
use task_core::trap::{
    check_kernel_interrupt, complete_syscall, kernel_trap_handler, trap_handler,
    user_trap_handler, TaskFault, TrapAction, TrapCause, TrapContext, TrapOrigin,
};

fn context(sepc: usize) -> TrapContext {
    let mut x = [0usize; 32];
    x[10] = 1;
    x[11] = 0x7800;
    x[12] = 16;
    x[17] = 64;
    TrapContext { x, sstatus: 0, sepc }
}

fn started(n: usize) -> TaskManager {
    let mut tm = TaskManager::new(n);
    tm.run_first_task(0, 0);
    tm
}

#[test]
fn syscall_advances_pc_and_passes_arguments() {
    let mut tm = started(2);
    let mut cx = context(0x1000);
    let r = user_trap_handler(&mut tm, &mut cx, TrapCause::UserEnvCall, 0, 5, 0);
    match r {
        TrapAction::Syscall { id, args } => {
            assert_eq!(id, 64);
            assert_eq!(args, [1, 0x7800, 16]);
        }
        other => panic!("unexpected {:?}", other),
    }
    assert_eq!(cx.sepc, 0x1004);
    assert_eq!(tm.inner.tasks[0].user_time, 5);
    assert_eq!(tm.inner.tasks[0].task_status, TaskStatus::Running);
}

#[test]
fn syscall_result_lands_in_a0() {
    let mut cx = context(0x1000);
    complete_syscall(&mut cx, 16);
    assert_eq!(cx.x[10], 16);
    complete_syscall(&mut cx, -1);
    assert_eq!(cx.x[10], usize::MAX);
    assert_eq!(cx.sepc, 0x1000);
}

#[test]
fn store_page_fault_kills_task() {
    let mut tm = started(2);
    let mut cx = context(0x2000);
    let r = user_trap_handler(&mut tm, &mut cx, TrapCause::StorePageFault, 0xdead, 1, 0);
    match r {
        TrapAction::Killed { task, fault, next } => {
            assert_eq!(task, 0);
            assert_eq!(fault, TaskFault::PageFault { addr: 0xdead, pc: 0x2000 });
            assert_eq!(next, Schedule::Switch { from: 0, to: 1 });
        }
        other => panic!("unexpected {:?}", other),
    }
    assert_eq!(tm.inner.tasks[0].task_status, TaskStatus::Exited);
    assert_eq!(cx.sepc, 0x2000);
}

#[test]
fn store_fault_kills_task() {
    let mut tm = started(2);
    let mut cx = context(0x2000);
    let r = user_trap_handler(&mut tm, &mut cx, TrapCause::StoreFault, 0x10, 1, 0);
    assert!(matches!(r, TrapAction::Killed { task: 0, fault: TaskFault::PageFault { addr: 0x10, pc: 0x2000 }, .. }));
}

#[test]
fn illegal_instruction_of_last_task_shuts_down() {
    let mut tm = started(1);
    let mut cx = context(0x2000);
    let r = user_trap_handler(&mut tm, &mut cx, TrapCause::IllegalInstruction, 0, 1, 0);
    assert!(matches!(
        r,
        TrapAction::Killed { task: 0, fault: TaskFault::IllegalInstruction, next: Schedule::Shutdown }
    ));
    assert!(tm.inner.halted);
}

#[test]
fn timer_preempts_user_task() {
    let mut tm = started(3);
    let mut cx = context(0x3000);
    let r = user_trap_handler(&mut tm, &mut cx, TrapCause::SupervisorTimer, 0, 10, 99);
    assert!(matches!(r, TrapAction::Preempted { task: 0, next: Schedule::Switch { from: 0, to: 1 } }));
    assert_eq!(tm.inner.current_task, 1);
    assert_eq!(tm.inner.tasks[0].task_status, TaskStatus::Ready);
    assert_eq!(tm.inner.task_switch_timestamp, 99);
}

#[test]
fn unknown_user_trap_is_fatal() {
    let mut tm = started(2);
    let mut cx = context(0x4000);
    let r = user_trap_handler(&mut tm, &mut cx, TrapCause::Other, 7, 3, 0);
    assert!(matches!(
        r,
        TrapAction::Fatal { origin: TrapOrigin::FromUser, cause: TrapCause::Other, stval: 7, pc: 0x4000 }
    ));
    assert_eq!(tm.inner.tasks[0].user_time, 3);
}

#[test]
fn kernel_timer_is_recorded_without_scheduling() {
    let mut tm = started(2);
    let cx = context(0x5000);
    assert!(!check_kernel_interrupt(&tm));
    let r = kernel_trap_handler(&mut tm, &cx, TrapCause::SupervisorTimer, 0);
    assert!(matches!(r, TrapAction::KernelTimer));
    assert!(check_kernel_interrupt(&tm));
    assert_eq!(tm.inner.current_task, 0);
    assert_eq!(tm.inner.tasks[0].task_status, TaskStatus::Running);
}

#[test]
fn kernel_store_fault_is_fatal() {
    let mut tm = started(2);
    let mut cx = context(0x5000);
    let r = trap_handler(&mut tm, &mut cx, TrapOrigin::FromKernel, TrapCause::StoreFault, 0x40, 0, 0);
    assert!(matches!(
        r,
        TrapAction::Fatal { origin: TrapOrigin::FromKernel, cause: TrapCause::StoreFault, stval: 0x40, pc: 0x5000 }
    ));
    assert!(!check_kernel_interrupt(&tm));
}

#[test]
fn dispatch_follows_origin() {
    let mut tm = started(2);
    let mut cx = context(0x6000);
    let r = trap_handler(&mut tm, &mut cx, TrapOrigin::FromKernel, TrapCause::SupervisorTimer, 0, 0, 0);
    assert!(matches!(r, TrapAction::KernelTimer));
    let r = trap_handler(&mut tm, &mut cx, TrapOrigin::FromUser, TrapCause::SupervisorTimer, 0, 1, 0);
    assert!(matches!(r, TrapAction::Preempted { task: 0, .. }));
}

// Three tasks; task 1 executes an illegal instruction during its second timer
// slice. It is killed once, tasks 0 and 2 then alternate, and the machine
// shuts down once both have exited.
#[test]
fn illegal_instruction_on_second_slice() {
    let mut tm = started(3);
    let mut cx = context(0x1000);
    let mut now = 0;
    let mut order = Vec::new();
    let mut kills = 0;
    let mut slices_of_task1 = 0;
    // timer slices until task 1 faults on its second one
    loop {
        now += 10;
        let cur = tm.inner.current_task;
        if cur == 1 {
            slices_of_task1 += 1;
        }
        let cause = if cur == 1 && slices_of_task1 == 2 {
            TrapCause::IllegalInstruction
        } else {
            TrapCause::SupervisorTimer
        };
        match trap_handler(&mut tm, &mut cx, TrapOrigin::FromUser, cause, 0, now, now) {
            TrapAction::Preempted { next: Schedule::Switch { to, .. }, .. } => order.push(to),
            TrapAction::Killed { task, fault, next: Schedule::Switch { to, .. } } => {
                assert_eq!(task, 1);
                assert_eq!(fault, TaskFault::IllegalInstruction);
                kills += 1;
                order.push(to);
                break;
            }
            other => panic!("unexpected {:?}", other),
        }
        task_core::task::update_current_task_kernel_time(&mut tm, now);
    }
    assert_eq!(kills, 1);
    assert_eq!(order, vec![1, 2, 0, 1, 2]);
    assert_eq!(tm.inner.tasks[1].task_status, TaskStatus::Exited);
    task_core::task::update_current_task_kernel_time(&mut tm, now);
    // four more slices alternate between tasks 0 and 2 only
    let mut after = Vec::new();
    for _ in 0..4 {
        now += 10;
        match trap_handler(&mut tm, &mut cx, TrapOrigin::FromUser, TrapCause::SupervisorTimer, 0, now, now) {
            TrapAction::Preempted { next: Schedule::Switch { to, .. }, .. } => after.push(to),
            other => panic!("unexpected {:?}", other),
        }
        task_core::task::update_current_task_kernel_time(&mut tm, now);
    }
    assert_eq!(after, vec![0, 2, 0, 2]);
    // task 2 and then task 0 exit through the exit path
    now += 10;
    let first = task_core::task::exit_current_and_run_next(&mut tm, now);
    assert_eq!(first, Schedule::Switch { from: 2, to: 0 });
    let last = task_core::task::exit_current_and_run_next(&mut tm, now);
    assert_eq!(last, Schedule::Shutdown);
    assert!(tm.inner.halted);
}

#[test]
fn kernel_traps_change_only_the_flag() {
    let mut tm = started(2);
    tm.do_update_task_switch_timestamp(500);
    assert_eq!(tm.do_cal_task_switch_cost(530), 30);
    let cx = context(0x7000);
    kernel_trap_handler(&mut tm, &cx, TrapCause::SupervisorTimer, 0);
    kernel_trap_handler(&mut tm, &cx, TrapCause::StorePageFault, 0x8);
    assert_eq!(tm.inner.task_switch_timestamp, 500);
    assert_eq!(tm.inner.task_switch_total_time, 30);
    assert_eq!(tm.inner.current_task, 0);
    assert!(check_kernel_interrupt(&tm));
}
