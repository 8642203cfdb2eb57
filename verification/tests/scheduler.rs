use kernel::process::{Context, Process, State};
use kernel::scheduler::Scheduler;

fn three_running() -> Scheduler {
    let mut scheduler = Scheduler::new();
    assert!(scheduler.add(Process::new(1, "one", State::Running)));
    assert!(scheduler.add(Process::new(2, "two", State::Running)));
    assert!(scheduler.add(Process::new(3, "three", State::Running)));
    scheduler
}

#[test]
fn round_robin_cycles_in_order() {
    let mut scheduler = three_running();
    let mut visited = Vec::new();
    for _ in 0..10 {
        scheduler.tick();
        visited.push(scheduler.get_active_id().unwrap());
    }
    assert_eq!(visited, vec![1, 2, 3, 1, 2, 3, 1, 2, 3, 1]);
}

#[test]
fn stopped_process_is_skipped() {
    let mut scheduler = three_running();
    scheduler.tick();
    assert_eq!(scheduler.get_active_id(), Some(1));
    assert!(scheduler.set_state(2, State::Stopped));
    let mut visited = Vec::new();
    for _ in 0..6 {
        scheduler.tick();
        visited.push(scheduler.get_active_id().unwrap());
    }
    assert_eq!(visited, vec![3, 1, 3, 1, 3, 1]);
}

#[test]
fn single_running_process_keeps_control() {
    let mut scheduler = Scheduler::new();
    assert!(scheduler.add(Process::new(7, "solo", State::Running)));
    scheduler.tick();
    assert_eq!(scheduler.get_active_id(), Some(7));
    let cpu_before = scheduler.cpu;
    scheduler.tick();
    assert_eq!(scheduler.get_active_id(), Some(7));
    assert_eq!(scheduler.cpu, cpu_before);
}

#[test]
fn no_running_process_is_idle() {
    let mut scheduler = Scheduler::new();
    assert!(scheduler.add(Process::new(1, "one", State::Stopped)));
    assert!(scheduler.add(Process::new(2, "two", State::Stopped)));
    scheduler.tick();
    assert_eq!(scheduler.get_active_id(), None);
    scheduler.tick();
    assert_eq!(scheduler.get_active_id(), None);
}

#[test]
fn empty_table_is_idle() {
    let mut scheduler = Scheduler::new();
    scheduler.tick();
    assert_eq!(scheduler.get_active_id(), None);
}

#[test]
fn duplicate_identifier_is_rejected() {
    let mut scheduler = Scheduler::new();
    assert!(scheduler.add(Process::new(1, "one", State::Running)));
    assert!(!scheduler.add(Process::new(1, "other", State::Running)));
    assert!(!scheduler.set_state(9, State::Stopped));
}

#[test]
fn process_accessors() {
    let mut p = Process::new(5, "shell", State::Running);
    assert_eq!(p.get_id(), 5);
    assert_eq!(p.get_name(), "shell");
    p.set_id(6);
    assert_eq!(p.get_id(), 6);
    p.set_state(State::Stopped);
    assert_eq!(p.state, State::Stopped);
    assert_eq!(p.context, Context::default());
}

#[test]
fn context_round_trip_is_identical() {
    let mut p = Process::new(1, "one", State::Running);
    let saved = Context {
        rax: 1,
        rbx: 2,
        rcx: 3,
        rdx: 4,
        rsi: 5,
        rdi: 6,
        rsp: 7,
        rbp: 8,
        r8: 9,
        r9: 10,
        r10: 11,
        r11: 12,
        r12: 13,
        r13: 14,
        r14: 15,
        r15: 16,
        rip: 17,
        rflags: 18,
    };
    p.save_context(&saved);
    let mut restored = Context::default();
    p.restore_context(&mut restored);
    assert_eq!(restored, saved);
    assert_eq!(restored.rax, saved.rax);
    assert_eq!(restored.rsp, saved.rsp);
    assert_eq!(restored.rip, saved.rip);
    assert_eq!(restored.rflags, saved.rflags);
}

#[test]
fn context_switch_saves_outgoing_context() {
    let mut scheduler = three_running();
    scheduler.tick();
    assert_eq!(scheduler.get_active_id(), Some(1));
    // Mark what the CPU model held while process 1 ran.
    scheduler.cpu.rax = 0xDEAD;
    scheduler.tick();
    assert_eq!(scheduler.get_active_id(), Some(2));
    // Process 1's saved context now holds the outgoing CPU state, and the
    // CPU holds process 2's zeroed context.
    assert_eq!(scheduler.table[0].context.rax, 0xDEAD);
    assert_eq!(scheduler.cpu.rax, 0);
}
