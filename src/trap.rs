//! Trap dispatch: every trap, from a user program or from the kernel itself,
//! is classified here and turned into a state change of the task manager and
//! an action for the trap entry path to carry out.

use crate::task::{
    add_user_time, same_but_flag, exit_current_and_run_next, schedule_after, suspend_current_and_run_next,
    tasks_after, update_current_task_user_time, with_status, Schedule, TaskManager, TaskStatus,
};
use riscv::register::scause::{Exception as Exc, Interrupt as Int};
use vstd::prelude::*;

verus! {

/// Register slot of the first system-call argument and of its result.
pub const REG_A0: usize = 10;

/// Register slot of the second system-call argument.
pub const REG_A1: usize = 11;

/// Register slot of the third system-call argument.
pub const REG_A2: usize = 12;

/// Register slot of the system-call number.
pub const REG_A7: usize = 17;

/// Width in bytes of the system-call instruction.
pub const ECALL_WIDTH: usize = 4;

/// The interrupted flow's registers, as the trap entry stub saved them.
#[derive(Clone, Copy, Debug)]
pub struct TrapContext {
    /// general registers x0 to x31
    pub x: [usize; 32],
    /// saved status register bits
    pub sstatus: usize,
    /// program counter at which the flow resumes
    pub sepc: usize,
}

/// Privilege level that the processor was at when the trap came.
#[derive(Clone, Copy, Debug, PartialEq, Eq, Structural)]
pub enum TrapOrigin {
    FromUser,
    FromKernel,
}

/// The causes of a trap that the dispatcher tells apart.
#[derive(Clone, Copy, Debug, PartialEq, Eq, Structural)]
pub enum TrapCause {
    UserEnvCall,
    StoreFault,
    StorePageFault,
    IllegalInstruction,
    SupervisorTimer,
    /// any other exception or interrupt
    Other,
}

/// Exception causes of the cause register, one per code.
#[derive(Clone, Copy, Debug, PartialEq, Eq, Structural)]
pub enum ExceptionCause {
    InstructionMisaligned,
    InstructionFault,
    IllegalInstruction,
    Breakpoint,
    LoadFault,
    StoreMisaligned,
    StoreFault,
    UserEnvCall,
    InstructionPageFault,
    LoadPageFault,
    StorePageFault,
    Unknown,
}

/// Interrupt causes of the cause register, one per code.
#[derive(Clone, Copy, Debug, PartialEq, Eq, Structural)]
pub enum InterruptCause {
    UserSoft,
    SupervisorSoft,
    UserTimer,
    SupervisorTimer,
    UserExternal,
    SupervisorExternal,
    Unknown,
}

/// The exception that a cause code names.
pub open spec fn exception_of(code: usize) -> ExceptionCause {
    if code == 0 {
        ExceptionCause::InstructionMisaligned
    } else if code == 1 {
        ExceptionCause::InstructionFault
    } else if code == 2 {
        ExceptionCause::IllegalInstruction
    } else if code == 3 {
        ExceptionCause::Breakpoint
    } else if code == 5 {
        ExceptionCause::LoadFault
    } else if code == 6 {
        ExceptionCause::StoreMisaligned
    } else if code == 7 {
        ExceptionCause::StoreFault
    } else if code == 8 {
        ExceptionCause::UserEnvCall
    } else if code == 12 {
        ExceptionCause::InstructionPageFault
    } else if code == 13 {
        ExceptionCause::LoadPageFault
    } else if code == 15 {
        ExceptionCause::StorePageFault
    } else {
        ExceptionCause::Unknown
    }
}

/// The interrupt that a cause code names.
pub open spec fn interrupt_of(code: usize) -> InterruptCause {
    if code == 0 {
        InterruptCause::UserSoft
    } else if code == 1 {
        InterruptCause::SupervisorSoft
    } else if code == 4 {
        InterruptCause::UserTimer
    } else if code == 5 {
        InterruptCause::SupervisorTimer
    } else if code == 8 {
        InterruptCause::UserExternal
    } else if code == 9 {
        InterruptCause::SupervisorExternal
    } else {
        InterruptCause::Unknown
    }
}

/// Relies on riscv's `scause::Exception::from`: the exception variant that
/// names a cause code, by the table of the privileged architecture.
#[verifier::external_body]
fn exception_from(code: usize) -> (r: ExceptionCause)
    ensures
        r == exception_of(code),
{
    match Exc::from(code) {
        Exc::InstructionMisaligned => ExceptionCause::InstructionMisaligned,
        Exc::InstructionFault => ExceptionCause::InstructionFault,
        Exc::IllegalInstruction => ExceptionCause::IllegalInstruction,
        Exc::Breakpoint => ExceptionCause::Breakpoint,
        Exc::LoadFault => ExceptionCause::LoadFault,
        Exc::StoreMisaligned => ExceptionCause::StoreMisaligned,
        Exc::StoreFault => ExceptionCause::StoreFault,
        Exc::UserEnvCall => ExceptionCause::UserEnvCall,
        Exc::InstructionPageFault => ExceptionCause::InstructionPageFault,
        Exc::LoadPageFault => ExceptionCause::LoadPageFault,
        Exc::StorePageFault => ExceptionCause::StorePageFault,
        Exc::Unknown => ExceptionCause::Unknown,
    }
}

/// Relies on riscv's `scause::Interrupt::from`: the interrupt variant that
/// names a cause code, by the table of the privileged architecture.
#[verifier::external_body]
fn interrupt_from(code: usize) -> (r: InterruptCause)
    ensures
        r == interrupt_of(code),
{
    match Int::from(code) {
        Int::UserSoft => InterruptCause::UserSoft,
        Int::SupervisorSoft => InterruptCause::SupervisorSoft,
        Int::UserTimer => InterruptCause::UserTimer,
        Int::SupervisorTimer => InterruptCause::SupervisorTimer,
        Int::UserExternal => InterruptCause::UserExternal,
        Int::SupervisorExternal => InterruptCause::SupervisorExternal,
        Int::Unknown => InterruptCause::Unknown,
    }
}

/// The cause register's top bit, set for interrupts and clear for exceptions.
pub const INTERRUPT_BIT: usize = usize::MAX / 2 + 1;

/// The dispatcher's class of a trap whose cause register holds `bits`: the
/// top bit tells interrupts from exceptions, the other bits give the code.
pub open spec fn cause_of(bits: usize) -> TrapCause {
    if bits >= INTERRUPT_BIT {
        match interrupt_of((bits - INTERRUPT_BIT) as usize) {
            InterruptCause::SupervisorTimer => TrapCause::SupervisorTimer,
            _ => TrapCause::Other,
        }
    } else {
        match exception_of(bits) {
            ExceptionCause::UserEnvCall => TrapCause::UserEnvCall,
            ExceptionCause::StoreFault => TrapCause::StoreFault,
            ExceptionCause::StorePageFault => TrapCause::StorePageFault,
            ExceptionCause::IllegalInstruction => TrapCause::IllegalInstruction,
            _ => TrapCause::Other,
        }
    }
}

/// Classifies a trap by the contents of its cause register.
pub fn trap_cause(scause_bits: usize) -> (r: TrapCause)
    ensures
        r == cause_of(scause_bits),
{
    if scause_bits >= INTERRUPT_BIT {
        match interrupt_from(scause_bits - INTERRUPT_BIT) {
            InterruptCause::SupervisorTimer => TrapCause::SupervisorTimer,
            _ => TrapCause::Other,
        }
    } else {
        match exception_from(scause_bits) {
            ExceptionCause::UserEnvCall => TrapCause::UserEnvCall,
            ExceptionCause::StoreFault => TrapCause::StoreFault,
            ExceptionCause::StorePageFault => TrapCause::StorePageFault,
            ExceptionCause::IllegalInstruction => TrapCause::IllegalInstruction,
            _ => TrapCause::Other,
        }
    }
}

/// Why a user task was killed.
#[derive(Clone, Copy, Debug, PartialEq, Eq, Structural)]
pub enum TaskFault {
    /// a store to `addr` by the instruction at `pc` faulted
    PageFault { addr: usize, pc: usize },
    IllegalInstruction,
}

/// What the trap entry path must do once the dispatcher has decided.
#[derive(Clone, Copy, Debug)]
pub enum TrapAction {
    /// Run system call `id` on `args`, store its result with
    /// `complete_syscall`, then return to the task.
    Syscall { id: usize, args: [usize; 3] },
    /// Report the fault of `task`, which has exited, then carry out `next`.
    Killed { task: usize, fault: TaskFault, next: Schedule },
    /// Rearm the timer, then carry out `next`, which takes the processor
    /// from `task`.
    Preempted { task: usize, next: Schedule },
    /// Rearm the timer and return to the interrupted kernel code.
    KernelTimer,
    /// Halt the machine: no recovery is defined for this trap.
    Fatal { origin: TrapOrigin, cause: TrapCause, stval: usize, pc: usize },
}

/// The action for a trap from a user task: `tasks` is the table once the
/// user time has been charged, `cur` the task that trapped.
pub open spec fn user_trap_outcome(
    tasks: Seq<crate::task::TaskControlBlock>,
    cur: int,
    cause: TrapCause,
    stval: usize,
    cx: TrapContext,
) -> TrapAction {
    match cause {
        TrapCause::UserEnvCall => TrapAction::Syscall {
            id: cx.x[REG_A7 as int],
            args: [cx.x[REG_A0 as int], cx.x[REG_A1 as int], cx.x[REG_A2 as int]],
        },
        TrapCause::StoreFault | TrapCause::StorePageFault => TrapAction::Killed {
            task: cur as usize,
            fault: TaskFault::PageFault { addr: stval, pc: cx.sepc },
            next: schedule_after(with_status(tasks, cur, TaskStatus::Exited), cur),
        },
        TrapCause::IllegalInstruction => TrapAction::Killed {
            task: cur as usize,
            fault: TaskFault::IllegalInstruction,
            next: schedule_after(with_status(tasks, cur, TaskStatus::Exited), cur),
        },
        TrapCause::SupervisorTimer => TrapAction::Preempted {
            task: cur as usize,
            next: schedule_after(with_status(tasks, cur, TaskStatus::Ready), cur),
        },
        TrapCause::Other => TrapAction::Fatal { origin: TrapOrigin::FromUser, cause, stval, pc: cx.sepc },
    }
}

/// The task table after a trap from a user task, from the table `tasks`
/// once the user time has been charged.
pub open spec fn user_trap_tasks(
    tasks: Seq<crate::task::TaskControlBlock>,
    cur: int,
    cause: TrapCause,
) -> Seq<crate::task::TaskControlBlock> {
    match cause {
        TrapCause::StoreFault | TrapCause::StorePageFault | TrapCause::IllegalInstruction => tasks_after(
            with_status(tasks, cur, TaskStatus::Exited),
            cur,
        ),
        TrapCause::SupervisorTimer => tasks_after(with_status(tasks, cur, TaskStatus::Ready), cur),
        _ => tasks,
    }
}

/// The action for a trap taken while the kernel itself executes.
pub open spec fn kernel_trap_outcome(cause: TrapCause, stval: usize, pc: usize) -> TrapAction {
    match cause {
        TrapCause::SupervisorTimer => TrapAction::KernelTimer,
        _ => TrapAction::Fatal { origin: TrapOrigin::FromKernel, cause, stval, pc },
    }
}

/// Whether a timer interrupt has ever arrived while the kernel executed.
pub fn check_kernel_interrupt(tm: &TaskManager) -> (r: bool)
    ensures
        r == tm.inner.kernel_interrupt_triggered,
{
    tm.inner.kernel_interrupt_triggered
}

/// Records that a timer interrupt arrived while the kernel executed.
pub fn mark_kernel_interrupt_triggered(tm: &mut TaskManager)
    requires
        old(tm).wf(),
    ensures
        final(tm).wf(),
        final(tm).inner.kernel_interrupt_triggered,
        same_but_flag(*old(tm), *final(tm)),
{
    tm.inner.kernel_interrupt_triggered = true;
}

/// Stores a system call's signed result in the return-value register.
#[verifier::truncate]
pub fn complete_syscall(cx: &mut TrapContext, ret: isize)
    ensures
        final(cx).x@ == old(cx).x@.update(REG_A0 as int, ret as usize),
        final(cx).sepc == old(cx).sepc,
        final(cx).sstatus == old(cx).sstatus,
{
    cx.x[REG_A0] = ret as usize;
}

/// Handles a trap from a user task. The user time up to `now_ms` is charged
/// first; a system call moves the resume address past the call instruction;
/// a store fault or an illegal instruction ends the task; a timer interrupt
/// preempts it. The caller charges kernel time once the action is done.
pub fn user_trap_handler(
    tm: &mut TaskManager,
    cx: &mut TrapContext,
    cause: TrapCause,
    stval: usize,
    now_ms: usize,
    now_us: usize,
) -> (r: TrapAction)
    requires
        old(tm).wf(),
        old(tm).is_running(),
        now_ms >= old(tm).inner.system_time_stamp,
    ensures
        final(tm).wf(),
        ({
            let charged = add_user_time(
                old(tm).tasks(),
                old(tm).current(),
                now_ms - old(tm).inner.system_time_stamp,
            );
            &&& r == user_trap_outcome(charged, old(tm).current(), cause, stval, *old(cx))
            &&& final(tm).tasks() == user_trap_tasks(charged, old(tm).current(), cause)
        }),
        final(tm).inner.system_time_stamp == now_ms,
        final(tm).inner.task_switch_total_time == old(tm).inner.task_switch_total_time,
        final(tm).inner.kernel_interrupt_triggered == old(tm).inner.kernel_interrupt_triggered,
        final(tm).num_app == old(tm).num_app,
        r is Syscall || r is Fatal ==> {
            &&& final(tm).inner.current_task == old(tm).inner.current_task
            &&& final(tm).inner.task_switch_timestamp == old(tm).inner.task_switch_timestamp
        },
        !(r is Killed) ==> final(tm).is_running(),
        (r matches TrapAction::Killed { next: Schedule::Switch { .. }, .. }) ==> final(tm).is_running(),
        (r matches TrapAction::Killed { next: Schedule::Shutdown, .. }) ==> final(tm).inner.halted,
        final(cx).x == old(cx).x,
        final(cx).sstatus == old(cx).sstatus,
        final(cx).sepc == if cause == TrapCause::UserEnvCall {
            old(cx).sepc.wrapping_add(ECALL_WIDTH)
        } else {
            old(cx).sepc
        },
{
    update_current_task_user_time(tm, now_ms);
    let cur = tm.inner.current_task;
    match cause {
        TrapCause::UserEnvCall => {
            cx.sepc = cx.sepc.wrapping_add(ECALL_WIDTH);
            TrapAction::Syscall { id: cx.x[REG_A7], args: [cx.x[REG_A0], cx.x[REG_A1], cx.x[REG_A2]] }
        },
        TrapCause::StoreFault | TrapCause::StorePageFault => {
            let fault = TaskFault::PageFault { addr: stval, pc: cx.sepc };
            let next = exit_current_and_run_next(tm, now_us);
            TrapAction::Killed { task: cur, fault, next }
        },
        TrapCause::IllegalInstruction => {
            let next = exit_current_and_run_next(tm, now_us);
            TrapAction::Killed { task: cur, fault: TaskFault::IllegalInstruction, next }
        },
        TrapCause::SupervisorTimer => {
            let next = suspend_current_and_run_next(tm, now_us);
            TrapAction::Preempted { task: cur, next }
        },
        TrapCause::Other => TrapAction::Fatal {
            origin: TrapOrigin::FromUser,
            cause,
            stval,
            pc: cx.sepc,
        },
    }
}

/// Handles a trap taken while the kernel executes: a timer interrupt is
/// recorded and nothing is scheduled; anything else halts the machine.
pub fn kernel_trap_handler(tm: &mut TaskManager, cx: &TrapContext, cause: TrapCause, stval: usize) -> (r: TrapAction)
    requires
        old(tm).wf(),
    ensures
        final(tm).wf(),
        r == kernel_trap_outcome(cause, stval, cx.sepc),
        same_but_flag(*old(tm), *final(tm)),
        final(tm).inner.kernel_interrupt_triggered == (old(tm).inner.kernel_interrupt_triggered
            || cause == TrapCause::SupervisorTimer),
{
    match cause {
        TrapCause::SupervisorTimer => {
            mark_kernel_interrupt_triggered(tm);
            TrapAction::KernelTimer
        },
        _ => TrapAction::Fatal { origin: TrapOrigin::FromKernel, cause, stval, pc: cx.sepc },
    }
}

/// The single entry for every trap: dispatches on the privilege level the
/// trap came from.
pub fn trap_handler(
    tm: &mut TaskManager,
    cx: &mut TrapContext,
    origin: TrapOrigin,
    cause: TrapCause,
    stval: usize,
    now_ms: usize,
    now_us: usize,
) -> (r: TrapAction)
    requires
        old(tm).wf(),
        origin == TrapOrigin::FromUser ==> old(tm).is_running() && now_ms
            >= old(tm).inner.system_time_stamp,
    ensures
        final(tm).wf(),
        origin == TrapOrigin::FromUser ==> {
            let charged = add_user_time(
                old(tm).tasks(),
                old(tm).current(),
                now_ms - old(tm).inner.system_time_stamp,
            );
            &&& r == user_trap_outcome(charged, old(tm).current(), cause, stval, *old(cx))
            &&& final(tm).tasks() == user_trap_tasks(charged, old(tm).current(), cause)
            &&& final(tm).inner.system_time_stamp == now_ms
            &&& final(tm).inner.task_switch_total_time == old(tm).inner.task_switch_total_time
            &&& final(tm).inner.kernel_interrupt_triggered == old(tm).inner.kernel_interrupt_triggered
            &&& final(cx).x == old(cx).x
            &&& final(cx).sepc == if cause == TrapCause::UserEnvCall {
                old(cx).sepc.wrapping_add(ECALL_WIDTH)
            } else {
                old(cx).sepc
            }
        },
        origin == TrapOrigin::FromKernel ==> {
            &&& r == kernel_trap_outcome(cause, stval, old(cx).sepc)
            &&& same_but_flag(*old(tm), *final(tm))
            &&& final(tm).inner.kernel_interrupt_triggered == (old(tm).inner.kernel_interrupt_triggered
                || cause == TrapCause::SupervisorTimer)
            &&& *final(cx) == *old(cx)
        },
{
    match origin {
        TrapOrigin::FromUser => user_trap_handler(tm, cx, cause, stval, now_ms, now_us),
        TrapOrigin::FromKernel => kernel_trap_handler(tm, cx, cause, stval),
    }
}

} // verus!
