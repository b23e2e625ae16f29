use luau_runtime::{Handle, Runtime, Status};

fn run_ticks(rt: &mut Runtime, order: &mut Vec<u64>) {
    loop {
        let plan = rt.drain_tick();
        order.extend(plan.threads.iter().copied());
        if rt.finish_tick(true) {
            break;
        }
    }
}

#[test]
fn spawned_threads_resume_in_push_order() {
    // A, B, C as tickets 1, 2, 3
    let mut rt = Runtime::new();
    rt.push_thread_front(1);
    rt.push_thread_front(2);
    rt.push_thread_front(3);
    rt.start_run();
    let mut order = Vec::new();
    run_ticks(&mut rt, &mut order);
    assert_eq!(order, vec![1, 2, 3]);
    assert_eq!(rt.status(), Status::Completed);
    assert!(!rt.has_work());
}

#[test]
fn spawn_precedes_defer_within_a_tick() {
    let mut rt = Runtime::new();
    rt.push_thread_back(101);
    rt.push_thread_back(102);
    rt.push_thread_front(201);
    rt.start_run();
    let plan = rt.drain_tick();
    assert_eq!(plan.threads, vec![201, 101, 102]);
    assert_eq!(plan.num_spawned, 1);
    assert!(plan.futures.is_empty());
    // a spawn made while the tick's work runs lands in the next tick
    rt.push_thread_front(202);
    assert!(!rt.finish_tick(true));
    assert_eq!(rt.status(), Status::Running);
    let plan = rt.drain_tick();
    assert_eq!(plan.threads, vec![202]);
    assert_eq!(plan.num_spawned, 1);
    assert!(rt.finish_tick(true));
    assert_eq!(rt.status(), Status::Completed);
}

#[test]
fn local_futures_are_adopted_in_order() {
    let mut rt = Runtime::new();
    rt.push_future(5);
    rt.push_thread_front(1);
    rt.push_future(6);
    rt.start_run();
    assert!(rt.has_work());
    let plan = rt.drain_tick();
    assert_eq!(plan.threads, vec![1]);
    assert_eq!(plan.futures, vec![5, 6]);
    assert!(!rt.has_work());
}

#[test]
fn run_continues_while_executor_busy() {
    let mut rt = Runtime::new();
    rt.push_thread_front(1);
    rt.start_run();
    let _ = rt.drain_tick();
    assert!(!rt.finish_tick(false));
    assert_eq!(rt.status(), Status::Running);
    let plan = rt.drain_tick();
    assert!(plan.threads.is_empty());
    assert!(rt.finish_tick(true));
    assert_eq!(rt.status(), Status::Completed);
}

#[test]
fn error_hook_called_once_per_error() {
    let mut rt = Runtime::new();
    rt.start_run();
    let mut ok: Handle<Result<u32, String>> = Handle::new();
    let mut bad: Handle<Result<u32, String>> = Handle::new();
    assert!(!rt.thread_finished(&mut ok, Ok(1)));
    assert!(rt.thread_finished(&mut bad, Err("boom".to_string())));
    assert_eq!(rt.errors_reported(), 1);
    assert_eq!(ok.take(), Some(Ok(1)));
    assert_eq!(bad.take(), Some(Err("boom".to_string())));
}

#[test]
fn removed_error_hook_is_not_called() {
    let mut rt = Runtime::new();
    rt.remove_error_callback();
    assert!(!rt.has_error_callback());
    rt.start_run();
    let mut h: Handle<Result<(), u8>> = Handle::new();
    assert!(!rt.thread_finished(&mut h, Err(3)));
    assert_eq!(rt.errors_reported(), 1);
    assert!(h.is_finished());
    assert!(rt.finish_tick(true));
    rt.set_error_callback();
    assert!(rt.has_error_callback());
}

#[test]
fn statuses_observed_in_order() {
    let mut rt = Runtime::new();
    let mut seen = vec![rt.status()];
    rt.push_thread_back(1);
    rt.start_run();
    seen.push(rt.status());
    let _ = rt.drain_tick();
    seen.push(rt.status());
    rt.finish_tick(true);
    seen.push(rt.status());
    assert_eq!(
        seen,
        vec![Status::NotStarted, Status::Running, Status::Running, Status::Completed]
    );
}

struct Lcg(u64);

impl Lcg {
    fn next(&mut self) -> u64 {
        self.0 = self.0.wrapping_mul(6364136223846793005).wrapping_add(1442695040888963407);
        self.0 >> 33
    }
}

#[test]
fn random_interleavings_keep_order_and_leave_nothing() {
    for seed in 0..50u64 {
        let mut rng = Lcg(seed);
        let mut rt = Runtime::new();
        let mut pushed_front = Vec::new();
        let mut pushed_back = Vec::new();
        let mut pushed_futs = Vec::new();
        let mut resumed = Vec::new();
        let mut adopted = Vec::new();
        let mut statuses = vec![rt.status()];
        let mut next: u64 = 0;
        rt.push_thread_front(next);
        pushed_front.push(next);
        next += 1;
        rt.start_run();
        statuses.push(rt.status());
        let mut rounds = 0;
        loop {
            let plan = rt.drain_tick();
            let (spawned, deferred) = plan.threads.split_at(plan.num_spawned);
            // every spawn ticket of this tick comes before every defer ticket
            assert!(spawned.iter().all(|t| pushed_front.contains(t)));
            assert!(deferred.iter().all(|t| pushed_back.contains(t)));
            resumed.extend(plan.threads.iter().copied());
            adopted.extend(plan.futures.iter().copied());
            if rounds < 8 {
                for _ in 0..(rng.next() % 5) {
                    match rng.next() % 3 {
                        0 => {
                            rt.push_thread_front(next);
                            pushed_front.push(next);
                        }
                        1 => {
                            rt.push_thread_back(next);
                            pushed_back.push(next);
                        }
                        _ => {
                            rt.push_future(next);
                            pushed_futs.push(next);
                        }
                    }
                    next += 1;
                }
            }
            rounds += 1;
            let busy = rng.next() % 4 == 0 && rounds < 12;
            let done = rt.finish_tick(!busy);
            statuses.push(rt.status());
            if done {
                break;
            }
        }
        let front_order: Vec<u64> =
            resumed.iter().copied().filter(|t| pushed_front.contains(t)).collect();
        let back_order: Vec<u64> =
            resumed.iter().copied().filter(|t| pushed_back.contains(t)).collect();
        assert_eq!(front_order, pushed_front);
        assert_eq!(back_order, pushed_back);
        assert_eq!(adopted, pushed_futs);
        assert_eq!(resumed.len(), pushed_front.len() + pushed_back.len());
        assert!(!rt.has_work());
        assert_eq!(rt.status(), Status::Completed);
        let ranks: Vec<u8> = statuses
            .iter()
            .map(|s| match s {
                Status::NotStarted => 0,
                Status::Running => 1,
                Status::Completed => 2,
            })
            .collect();
        assert!(ranks.windows(2).all(|w| w[0] <= w[1] && w[1] <= w[0] + 1));
    }
}

#[test]
fn random_errors_are_each_reported_once() {
    for seed in 0..50u64 {
        let mut rng = Lcg(seed + 1000);
        let mut rt = Runtime::new();
        rt.start_run();
        let mut hook_calls = 0;
        let mut failing = 0;
        for i in 0..40u32 {
            let mut h: Handle<Result<u32, u32>> = Handle::new();
            let outcome = if rng.next() % 3 == 0 {
                failing += 1;
                Err(i)
            } else {
                Ok(i)
            };
            if rt.thread_finished(&mut h, outcome) {
                hook_calls += 1;
            }
            assert!(h.is_finished());
        }
        assert_eq!(hook_calls, failing);
        assert_eq!(rt.errors_reported(), failing as u64);
    }
}
