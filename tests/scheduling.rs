use task_core::task::{
    exit_current_and_run_next, run_first_task, suspend_current_and_run_next,
    update_current_task_kernel_time, update_current_task_user_time, Schedule, TaskManager,
    TaskStatus,
};

fn statuses(tm: &TaskManager) -> Vec<TaskStatus> {
    tm.inner.tasks.iter().map(|t| t.task_status).collect()
}

fn running(tm: &TaskManager) -> Vec<usize> {
    (0..tm.num_app).filter(|i| tm.inner.tasks[*i].task_status == TaskStatus::Running).collect()
}

#[test]
fn new_manager_has_every_task_ready() {
    let tm = TaskManager::new(3);
    assert_eq!(statuses(&tm), vec![TaskStatus::Ready; 3]);
    assert_eq!(tm.inner.current_task, 0);
    assert!(!tm.inner.started);
}

#[test]
fn boot_runs_exactly_task_zero() {
    let mut tm = TaskManager::new(4);
    run_first_task(&mut tm, 10, 10_000);
    assert_eq!(running(&tm), vec![0]);
    assert_eq!(tm.inner.current_task, 0);
    assert_eq!(tm.inner.system_time_stamp, 10);
    assert_eq!(tm.inner.task_switch_timestamp, 10_000);
}

#[test]
fn suspensions_sweep_in_id_order() {
    let mut tm = TaskManager::new(3);
    run_first_task(&mut tm, 0, 0);
    let mut picked = Vec::new();
    for step in 0..6 {
        match suspend_current_and_run_next(&mut tm, step) {
            Schedule::Switch { from, to } => {
                assert_eq!(from, picked.last().copied().unwrap_or(0));
                picked.push(to);
            }
            Schedule::Shutdown => panic!("no shutdown while tasks are ready"),
        }
        assert_eq!(running(&tm), vec![tm.inner.current_task]);
    }
    assert_eq!(picked, vec![1, 2, 0, 1, 2, 0]);
}

#[test]
fn single_task_suspension_resumes_itself() {
    let mut tm = TaskManager::new(1);
    run_first_task(&mut tm, 0, 0);
    assert_eq!(suspend_current_and_run_next(&mut tm, 5), Schedule::Switch { from: 0, to: 0 });
    assert_eq!(running(&tm), vec![0]);
}

#[test]
fn exited_task_is_never_picked_again() {
    let mut tm = TaskManager::new(3);
    run_first_task(&mut tm, 0, 0);
    assert_eq!(suspend_current_and_run_next(&mut tm, 1), Schedule::Switch { from: 0, to: 1 });
    assert_eq!(exit_current_and_run_next(&mut tm, 2), Schedule::Switch { from: 1, to: 2 });
    assert_eq!(tm.inner.tasks[1].task_status, TaskStatus::Exited);
    let mut picked = Vec::new();
    for step in 0..4 {
        if let Schedule::Switch { to, .. } = suspend_current_and_run_next(&mut tm, 3 + step) {
            picked.push(to);
        }
    }
    assert_eq!(picked, vec![0, 2, 0, 2]);
    assert_eq!(tm.inner.tasks[1].task_status, TaskStatus::Exited);
}

#[test]
fn shutdown_after_last_exit() {
    let mut tm = TaskManager::new(2);
    run_first_task(&mut tm, 0, 0);
    assert_eq!(exit_current_and_run_next(&mut tm, 1), Schedule::Switch { from: 0, to: 1 });
    assert!(!tm.inner.halted);
    assert_eq!(exit_current_and_run_next(&mut tm, 2), Schedule::Shutdown);
    assert!(tm.inner.halted);
    assert_eq!(statuses(&tm), vec![TaskStatus::Exited; 2]);
    assert_eq!(tm.find_next_task(), None);
}

#[test]
fn find_next_task_wraps_around() {
    let mut tm = TaskManager::new(4);
    run_first_task(&mut tm, 0, 0);
    assert_eq!(suspend_current_and_run_next(&mut tm, 0), Schedule::Switch { from: 0, to: 1 });
    assert_eq!(suspend_current_and_run_next(&mut tm, 0), Schedule::Switch { from: 1, to: 2 });
    assert_eq!(suspend_current_and_run_next(&mut tm, 0), Schedule::Switch { from: 2, to: 3 });
    // running task 3: the next ready one wraps to 0
    assert_eq!(tm.find_next_task(), Some(0));
}

#[test]
fn user_and_kernel_time_are_charged_to_current_task() {
    let mut tm = TaskManager::new(2);
    run_first_task(&mut tm, 100, 0);
    update_current_task_user_time(&mut tm, 130);
    update_current_task_kernel_time(&mut tm, 135);
    assert_eq!(tm.inner.tasks[0].user_time, 30);
    assert_eq!(tm.inner.tasks[0].kernel_time, 5);
    assert_eq!(tm.inner.system_time_stamp, 135);
    suspend_current_and_run_next(&mut tm, 0);
    update_current_task_kernel_time(&mut tm, 137);
    update_current_task_user_time(&mut tm, 150);
    assert_eq!(tm.inner.tasks[1].kernel_time, 2);
    assert_eq!(tm.inner.tasks[1].user_time, 13);
    assert_eq!(tm.inner.tasks[0].kernel_time + tm.inner.tasks[0].user_time, 35);
}

#[test]
fn time_adds_up_to_elapsed_at_exit() {
    let mut tm = TaskManager::new(2);
    run_first_task(&mut tm, 1000, 0);
    let mut now = 1000;
    for _ in 0..5 {
        now += 7;
        update_current_task_user_time(&mut tm, now);
        now += 3;
        suspend_current_and_run_next(&mut tm, 0);
        update_current_task_kernel_time(&mut tm, now);
    }
    exit_current_and_run_next(&mut tm, 0);
    exit_current_and_run_next(&mut tm, 0);
    let total: usize = tm.inner.tasks.iter().map(|t| t.kernel_time + t.user_time).sum();
    assert_eq!(total, now - 1000);
}

#[test]
fn switch_cost_is_measured_and_summed() {
    let mut tm = TaskManager::new(2);
    tm.do_update_task_switch_timestamp(1000);
    assert_eq!(tm.do_cal_task_switch_cost(1250), 250);
    tm.do_update_task_switch_timestamp(2000);
    assert_eq!(tm.do_cal_task_switch_cost(2040), 40);
    assert_eq!(tm.inner.task_switch_total_time, 290);
}

#[test]
fn each_task_is_charged_the_time_it_was_current() {
    let mut tm = TaskManager::new(2);
    run_first_task(&mut tm, 0, 0);
    // the switch happens inside the trap: task 0 is current from 0 to 8,
    // task 1 from 8 to 24, task 0 again from 24 to 30
    update_current_task_user_time(&mut tm, 8);
    suspend_current_and_run_next(&mut tm, 0);
    update_current_task_kernel_time(&mut tm, 10);
    update_current_task_user_time(&mut tm, 24);
    suspend_current_and_run_next(&mut tm, 0);
    update_current_task_kernel_time(&mut tm, 25);
    update_current_task_user_time(&mut tm, 30);
    assert_eq!(exit_current_and_run_next(&mut tm, 0), Schedule::Switch { from: 0, to: 1 });
    let t0 = tm.inner.tasks[0];
    let t1 = tm.inner.tasks[1];
    assert_eq!(t0.kernel_time + t0.user_time, 8 + 6);
    assert_eq!(t1.kernel_time + t1.user_time, 16);
}

#[test]
fn shutdown_keeps_current_task() {
    let mut tm = TaskManager::new(3);
    run_first_task(&mut tm, 0, 0);
    exit_current_and_run_next(&mut tm, 1);
    exit_current_and_run_next(&mut tm, 2);
    let stamp = tm.inner.task_switch_timestamp;
    assert_eq!(exit_current_and_run_next(&mut tm, 3), Schedule::Shutdown);
    assert_eq!(tm.inner.current_task, 2);
    assert_eq!(tm.inner.task_switch_timestamp, stamp);
}
