use green::green::{
    current_entry, deactivate, recv, retire, rm_unused_stack, schedule, spawn, spawn_from_main,
    Runtime,
};
use green::registers::Registers;
use green::stack::StackRegion;
use green::fatal::Fatal;
use green::state::{Received, Switch};

const RESUME: u64 = 0xfeed;

fn stack(n: u64) -> StackRegion {
    StackRegion::new(0x100000 * (n + 1), 0x4000).unwrap()
}

fn fresh(n: u64) -> Registers {
    Registers::new(0x100000 * (n + 1) + 0x4000, RESUME)
}

fn here(task: u64, step: u64) -> Registers {
    Registers::new(task, step)
}

fn host() -> Registers {
    Registers::new(0xaaaa, 0xbbbb)
}

#[test]
fn new_runtime_is_idle() {
    let rt: Runtime<u32> = Runtime::new();
    assert!(!rt.is_active());
    assert_eq!(rt.last_id(), 0);
    assert_eq!(rt.ready_ids(), Vec::<u64>::new());
    assert_eq!(rt.unreleased(), 0);
    assert_eq!(rt.blocked_on(0), 0);
    assert_eq!(rt.pending(0), 0);
}

#[test]
fn activation_resumes_the_first_task() {
    let mut rt: Runtime<u32> = Runtime::new();
    let r = spawn_from_main(&mut rt, 11, stack(0), RESUME, host());
    assert_eq!(r, Ok(fresh(0)));
    assert!(rt.is_active());
    assert_eq!(rt.ready_ids(), vec![0]);
    assert_eq!(*current_entry(&rt), 11);
}

#[test]
fn activation_is_refused_while_one_is_in_progress() {
    let mut rt: Runtime<u32> = Runtime::new();
    spawn_from_main(&mut rt, 11, stack(0), RESUME, host()).unwrap();
    let again = spawn_from_main(&mut rt, 12, stack(1), RESUME, host());
    assert_eq!(again, Err(Fatal::Reentered));
    assert_eq!(rt.ready_ids(), vec![0]);
    assert_eq!(*current_entry(&rt), 11);
    assert_eq!(Fatal::Reentered.message(), "spawn_from_main is called twice");
}

#[test]
fn a_task_that_is_alone_keeps_running() {
    let mut rt: Runtime<u32> = Runtime::new();
    spawn_from_main(&mut rt, 11, stack(0), RESUME, host()).unwrap();
    assert_eq!(schedule(&mut rt, here(0, 1)), Switch::Stay);
    assert_eq!(schedule(&mut rt, here(0, 2)), Switch::Stay);
    assert_eq!(rt.ready_ids(), vec![0]);
}

#[test]
fn spawn_hands_out_rising_ids_and_yields() {
    let mut rt: Runtime<u32> = Runtime::new();
    spawn_from_main(&mut rt, 0, stack(0), RESUME, host()).unwrap();
    let (id, switch) = spawn(&mut rt, 1, stack(1), RESUME, here(0, 1));
    assert_eq!(id, 1);
    assert_eq!(switch, Switch::Resume(fresh(1)));
    assert_eq!(rt.ready_ids(), vec![1, 0]);
    assert_eq!(rt.last_id(), 1);
    let (id, switch) = spawn(&mut rt, 2, stack(2), RESUME, here(1, 1));
    assert_eq!(id, 2);
    assert_eq!(switch, Switch::Resume(here(0, 1)));
    assert_eq!(rt.ready_ids(), vec![0, 2, 1]);
    assert_eq!(*current_entry(&rt), 0);
}

#[test]
fn yields_rotate_the_tasks_in_spawn_order() {
    let mut rt: Runtime<u32> = Runtime::new();
    spawn_from_main(&mut rt, 0, stack(0), RESUME, host()).unwrap();
    spawn(&mut rt, 1, stack(1), RESUME, here(0, 0));
    spawn(&mut rt, 2, stack(2), RESUME, here(1, 0));
    assert_eq!(rt.ready_ids(), vec![0, 2, 1]);
    let order = [0u64, 2, 1];
    let mut saved = [here(0, 0), fresh(2), here(1, 0)];
    let rounds: u64 = 5;
    let mut ran: Vec<u64> = Vec::new();
    for step in 0..(3 * rounds) {
        let place = (step % 3) as usize;
        let running = rt.ready_ids()[0];
        assert_eq!(running, order[place]);
        ran.push(running);
        let captured = here(running, step + 1);
        let switch = schedule(&mut rt, captured);
        saved[place] = captured;
        assert_eq!(switch, Switch::Resume(saved[(place + 1) % 3]));
    }
    assert_eq!(ran, vec![0, 2, 1, 0, 2, 1, 0, 2, 1, 0, 2, 1, 0, 2, 1]);
    assert_eq!(rt.ready_ids(), vec![0, 2, 1]);
}

#[test]
fn as_many_yields_as_tasks_restore_the_order() {
    let mut rt: Runtime<u32> = Runtime::new();
    spawn_from_main(&mut rt, 0, stack(0), RESUME, host()).unwrap();
    for n in 1..6u64 {
        let running = rt.ready_ids()[0];
        spawn(&mut rt, 0, stack(n), RESUME, here(running, 0));
    }
    let before = rt.ready_ids();
    assert_eq!(before.len(), 6);
    for step in 0..6u64 {
        assert_eq!(rt.ready_ids()[0], before[step as usize]);
        schedule(&mut rt, here(0, step));
    }
    assert_eq!(rt.ready_ids(), before);
}

#[test]
fn the_only_ready_task_cannot_wait() {
    let mut rt: Runtime<u32> = Runtime::new();
    spawn_from_main(&mut rt, 0, stack(0), RESUME, host()).unwrap();
    assert_eq!(recv(&mut rt, here(0, 1)), Err(Fatal::Deadlock));
    assert_eq!(rt.ready_ids(), vec![0]);
    assert_eq!(rt.blocked_on(0), 0);
    assert_eq!(Fatal::Deadlock.message(), "waiting never delivered messages");
}

#[test]
fn the_last_task_left_cannot_wait_either() {
    let mut rt: Runtime<u32> = Runtime::new();
    spawn_from_main(&mut rt, 0, stack(0), RESUME, host()).unwrap();
    spawn(&mut rt, 1, stack(1), RESUME, here(0, 1));
    assert_eq!(rt.ready_ids(), vec![1, 0]);
    assert_eq!(retire(&mut rt), Some(here(0, 1)));
    assert_eq!(rt.ready_ids(), vec![0]);
    assert_eq!(recv(&mut rt, here(0, 2)), Err(Fatal::Deadlock));
    assert_eq!(rt.ready_ids(), vec![0]);
}

#[test]
fn a_task_with_company_blocks_instead() {
    let mut rt: Runtime<u32> = Runtime::new();
    spawn_from_main(&mut rt, 0, stack(0), RESUME, host()).unwrap();
    spawn(&mut rt, 1, stack(1), RESUME, here(0, 1));
    assert_eq!(recv(&mut rt, here(1, 1)), Ok(Received::Blocked(here(0, 1))));
    assert_eq!(rt.ready_ids(), vec![0]);
    assert_eq!(rt.blocked_on(1), 1);
}

#[test]
fn a_finished_task_leaves_its_stack_for_the_next_to_release() {
    let mut rt: Runtime<u32> = Runtime::new();
    spawn_from_main(&mut rt, 0, stack(0), RESUME, host()).unwrap();
    spawn(&mut rt, 1, stack(1), RESUME, here(0, 1));
    assert_eq!(rm_unused_stack(&mut rt), vec![]);
    assert_eq!(retire(&mut rt), Some(here(0, 1)));
    assert_eq!(rt.unreleased(), 1);
    assert_eq!(rm_unused_stack(&mut rt), vec![stack(1)]);
    assert_eq!(rt.unreleased(), 0);
    assert_eq!(rm_unused_stack(&mut rt), vec![]);
    assert_eq!(rt.ready_ids(), vec![0]);
}

#[test]
fn stacks_are_released_oldest_first() {
    let mut rt: Runtime<u32> = Runtime::new();
    spawn_from_main(&mut rt, 0, stack(0), RESUME, host()).unwrap();
    spawn(&mut rt, 1, stack(1), RESUME, here(0, 1));
    spawn(&mut rt, 2, stack(2), RESUME, here(1, 1));
    assert_eq!(rt.ready_ids(), vec![0, 2, 1]);
    assert_eq!(retire(&mut rt), Some(fresh(2)));
    assert_eq!(retire(&mut rt), Some(here(1, 1)));
    assert_eq!(rm_unused_stack(&mut rt), vec![stack(0), stack(2)]);
}

#[test]
fn the_last_task_hands_control_back_to_the_host() {
    let mut rt: Runtime<u32> = Runtime::new();
    spawn_from_main(&mut rt, 0, stack(0), RESUME, host()).unwrap();
    assert_eq!(retire(&mut rt), Some(host()));
    assert_eq!(rt.ready_ids(), Vec::<u64>::new());
    assert!(rt.is_active());
    assert_eq!(deactivate(&mut rt), vec![stack(0)]);
    assert!(!rt.is_active());
    assert_eq!(rt.unreleased(), 0);
}

#[test]
fn ids_go_on_rising_over_activations() {
    let mut rt: Runtime<u32> = Runtime::new();
    spawn_from_main(&mut rt, 0, stack(0), RESUME, host()).unwrap();
    spawn(&mut rt, 1, stack(1), RESUME, here(0, 1));
    retire(&mut rt);
    retire(&mut rt);
    deactivate(&mut rt);
    assert_eq!(rt.last_id(), 1);
    assert_eq!(spawn_from_main(&mut rt, 5, stack(2), RESUME, host()), Ok(fresh(2)));
    assert_eq!(rt.ready_ids(), vec![1]);
    let (id, _) = spawn(&mut rt, 6, stack(3), RESUME, here(1, 1));
    assert_eq!(id, 2);
    assert_eq!(rt.ready_ids(), vec![2, 1]);
}
