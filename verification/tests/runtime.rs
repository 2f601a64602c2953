use clockwork::clockwork_app::Lifecycle;
use clockwork::clockwork_app::LifecycleAction;
use clockwork::clockwork_app::LifecyclePhase;
use clockwork::clockwork_schedule::Schedule;
use clockwork::clockwork_schedule::ScheduledTask;
use clockwork::clockwork_schedule::TaskAction;
use clockwork::BuildError;
use clockwork::Clockwork;
use clockwork::ClockworkConfig;
use clockwork::ClockworkHandle;
use clockwork::RuntimeConfig;
use std::sync::atomic::AtomicU32;
use std::sync::atomic::Ordering;
use std::sync::mpsc::channel;
use std::sync::Arc;
use std::sync::Mutex;
use std::time::Duration;
use tokio::time::interval_at;
use tokio::time::sleep;
use tokio::time::Instant;

fn default_clockwork() -> Clockwork {
    Clockwork::from_config(ClockworkConfig::default()).expect("Failed to Build Runtime")
}

fn schedule_repeating_task_at<F>(handle: &ClockworkHandle, f: F, start: Instant, period: Duration)
where
    F: 'static + Fn() + Sync + Send,
{
    let reader = handle.clone();
    handle.spawn_task(async move {
        let mut interval = interval_at(start, period);
        let mut task = ScheduledTask::new(Schedule::Repeating);
        loop {
            match task.advance(reader.stopped()) {
                TaskAction::Wait => {
                    interval.tick().await;
                }
                TaskAction::Fire => f(),
                TaskAction::Finish => break,
            }
        }
    });
}

fn schedule_oneof_task<F>(handle: &ClockworkHandle, f: F, duration: Duration)
where
    F: 'static + Fn() + Sync + Send,
{
    handle.spawn_task(async move {
        let mut task = ScheduledTask::new(Schedule::Once);
        loop {
            match task.advance(false) {
                TaskAction::Wait => sleep(duration).await,
                TaskAction::Fire => f(),
                TaskAction::Finish => break,
            }
        }
    });
}

#[test]
fn stop_signal_starts_lowered_and_stays_raised() {
    let cw = default_clockwork();
    let handle = cw.handle();
    assert!(!handle.stopped());
    assert!(!cw.handle().stopped());
    handle.stop();
    assert!(handle.stopped());
    assert!(cw.handle().stopped());
    handle.stop();
    handle.stop();
    assert!(handle.stopped());
    for _ in 0..100 {
        assert!(cw.handle().stopped());
    }
}

#[test]
fn owner_stop_is_seen_by_every_handle() {
    let mut cw = default_clockwork();
    let before = cw.handle();
    let copy = before.clone();
    assert!(!before.stopped());
    assert!(!copy.stopped());
    cw.stop();
    assert!(before.stopped());
    assert!(copy.stopped());
    assert!(cw.handle().stopped());
}

#[test]
fn owners_do_not_share_a_signal() {
    let first = default_clockwork();
    let second = default_clockwork();
    first.handle().stop();
    assert!(first.handle().stopped());
    assert!(!second.handle().stopped());
}

#[test]
fn a_new_handle_on_a_shared_runtime_has_its_own_signal() {
    let rt = Arc::new(tokio::runtime::Builder::new_current_thread().build().unwrap());
    let first = ClockworkHandle::new(rt.clone());
    let second = ClockworkHandle::new(rt);
    let owner = Clockwork::new(first.clone());
    second.stop();
    assert!(second.stopped());
    assert!(!first.stopped());
    assert!(!owner.handle().stopped());
    owner.handle().stop();
    assert!(first.stopped());
}

#[test]
fn no_blocking_threads_is_refused() {
    let conf = ClockworkConfig {
        runtime: RuntimeConfig { enable_io: true, enable_time: true, max_threads: 0 },
    };
    match Clockwork::from_config(conf) {
        Err(BuildError::NoBlockingThreads) => {}
        Err(BuildError::Driver(e)) => panic!("unexpected driver error {e}"),
        Ok(_) => panic!("a runtime without blocking threads was built"),
    }
}

#[test]
fn a_built_runtime_is_wrapped_and_a_refusal_is_kept() {
    let built = tokio::runtime::Builder::new_current_thread().build();
    let cw = Clockwork::from_built(built).unwrap();
    assert!(!cw.handle().stopped());

    let refused = Err(std::io::Error::new(std::io::ErrorKind::Other, "no more descriptors"));
    match Clockwork::from_built(refused) {
        Err(BuildError::Driver(e)) => {
            assert_eq!(e.kind(), std::io::ErrorKind::Other);
            assert_eq!(e.to_string(), "no more descriptors");
        }
        _ => panic!("the refusal was lost"),
    }
}

#[test]
fn default_runtime_has_timers() {
    let cw = default_clockwork();
    let started = std::time::Instant::now();
    cw.handle().runtime().block_on(async {
        sleep(Duration::from_millis(30)).await;
    });
    assert!(started.elapsed() >= Duration::from_millis(30));
}

#[test]
fn default_runtime_has_io() {
    let cw = default_clockwork();
    // Without the I/O driver this panics, whatever the operating system
    // says to the bind itself.
    let _ = cw.handle().runtime().block_on(tokio::net::UdpSocket::bind("127.0.0.1:0"));
}

#[test]
fn drivers_that_are_switched_off_are_not_started() {
    let conf = ClockworkConfig {
        runtime: RuntimeConfig { enable_io: false, enable_time: false, max_threads: 512 },
    };
    let cw = Clockwork::from_config(conf).unwrap();
    let reached = Arc::new(AtomicU32::new(0));

    // A task that asks for a timer fails at that point where there is none.
    let at_start = reached.clone();
    let after_timer = reached.clone();
    cw.spawn_task(async move {
        at_start.fetch_add(1, Ordering::SeqCst);
        sleep(Duration::from_millis(1)).await;
        after_timer.fetch_add(10, Ordering::SeqCst);
    });
    // And so does one that asks for a socket.
    let at_start = reached.clone();
    let after_bind = reached.clone();
    cw.spawn_task(async move {
        at_start.fetch_add(100, Ordering::SeqCst);
        let _ = tokio::net::UdpSocket::bind("127.0.0.1:0").await;
        after_bind.fetch_add(1000, Ordering::SeqCst);
    });
    for _ in 0..20 {
        cw.handle().runtime().block_on(tokio::task::yield_now());
    }
    assert_eq!(reached.load(Ordering::SeqCst), 101);

    // Only the timer switched on: the timer task gets through.
    let conf = ClockworkConfig {
        runtime: RuntimeConfig { enable_io: false, enable_time: true, max_threads: 512 },
    };
    let cw = Clockwork::from_config(conf).unwrap();
    let reached = Arc::new(AtomicU32::new(0));
    let after_timer = reached.clone();
    cw.spawn_task(async move {
        sleep(Duration::from_millis(1)).await;
        after_timer.fetch_add(10, Ordering::SeqCst);
    });
    let after_bind = reached.clone();
    cw.spawn_task(async move {
        let _ = tokio::net::UdpSocket::bind("127.0.0.1:0").await;
        after_bind.fetch_add(1000, Ordering::SeqCst);
    });
    cw.handle().runtime().block_on(async {
        sleep(Duration::from_millis(30)).await;
    });
    assert_eq!(reached.load(Ordering::SeqCst), 10);
}

#[test]
fn blocking_thread_ceiling_is_applied() {
    let conf = ClockworkConfig {
        runtime: RuntimeConfig { enable_io: false, enable_time: true, max_threads: 1 },
    };
    let cw = Clockwork::from_config(conf).unwrap();
    let handle = cw.handle();
    let (to_first, from_second) = channel::<()>();
    let (report, outcome) = channel::<bool>();
    // With one blocking thread the second job cannot start while the first
    // one is still waiting for it.
    handle.runtime().spawn_blocking(move || {
        let met = from_second.recv_timeout(Duration::from_millis(300)).is_ok();
        report.send(met).unwrap();
    });
    handle.runtime().spawn_blocking(move || {
        let _ = to_first.send(());
    });
    assert_eq!(outcome.recv_timeout(Duration::from_secs(5)).unwrap(), false);

    let conf = ClockworkConfig {
        runtime: RuntimeConfig { enable_io: false, enable_time: true, max_threads: 2 },
    };
    let cw = Clockwork::from_config(conf).unwrap();
    let handle = cw.handle();
    let (to_first, from_second) = channel::<()>();
    let (report, outcome) = channel::<bool>();
    handle.runtime().spawn_blocking(move || {
        let met = from_second.recv_timeout(Duration::from_secs(5)).is_ok();
        report.send(met).unwrap();
    });
    handle.runtime().spawn_blocking(move || {
        let _ = to_first.send(());
    });
    assert_eq!(outcome.recv_timeout(Duration::from_secs(10)).unwrap(), true);
}

#[test]
fn spawned_future_runs_on_the_runtime() {
    let cw = default_clockwork();
    let count = Arc::new(AtomicU32::new(0));
    let seen = count.clone();
    cw.spawn_task(async move {
        seen.fetch_add(1, Ordering::SeqCst);
    });
    let seen = count.clone();
    cw.handle().spawn_task(async move {
        seen.fetch_add(10, Ordering::SeqCst);
    });
    assert_eq!(count.load(Ordering::SeqCst), 0);
    cw.handle().runtime().block_on(async {
        sleep(Duration::from_millis(20)).await;
    });
    assert_eq!(count.load(Ordering::SeqCst), 11);
}

#[test]
fn ticking_app_runs_two_seconds_and_shuts_down_once() {
    let cw = default_clockwork();
    let log = Arc::new(Mutex::new(Vec::<&'static str>::new()));
    let started = Instant::now();

    let mut life = Lifecycle::new(false);
    loop {
        match life.advance() {
            LifecycleAction::ActivateLogger => log.lock().unwrap().push("logger"),
            LifecycleAction::Setup => {
                let half = Duration::from_millis(500);
                let lines = log.clone();
                schedule_repeating_task_at(
                    &cw.handle(),
                    move || lines.lock().unwrap().push("tick"),
                    Instant::now() + half,
                    half,
                );
            }
            LifecycleAction::Run => {
                let handle = cw.handle();
                cw.handle().runtime().block_on(async move {
                    sleep(Duration::from_secs(2)).await;
                    handle.stop()
                });
            }
            LifecycleAction::Shutdown => log.lock().unwrap().push("done"),
            LifecycleAction::Done => break,
        }
    }

    let elapsed = started.elapsed();
    assert!(elapsed >= Duration::from_secs(2));
    assert!(elapsed < Duration::from_millis(2900), "took {elapsed:?}");
    assert_eq!(life.phase(), LifecyclePhase::ShutdownDone);
    assert!(cw.handle().stopped());

    let lines = log.lock().unwrap().clone();
    let ticks = lines.iter().filter(|line| **line == "tick").count();
    assert!(ticks == 3 || ticks == 4, "ticked {ticks} times");
    assert_eq!(lines.len(), ticks + 1);
    assert_eq!(lines.last(), Some(&"done"));
    assert!(lines[..ticks].iter().all(|line| *line == "tick"));
}

#[test]
fn repeating_task_fires_at_most_once_after_stop() {
    let cw = default_clockwork();
    let handle = cw.handle();
    let ticks = Arc::new(AtomicU32::new(0));
    let counter = ticks.clone();
    let period = Duration::from_millis(100);
    schedule_repeating_task_at(
        &handle,
        move || {
            counter.fetch_add(1, Ordering::SeqCst);
        },
        Instant::now() + period,
        period,
    );
    let stopper = handle.clone();
    handle.runtime().block_on(async move {
        sleep(Duration::from_millis(350)).await;
        stopper.stop();
    });
    let fired = ticks.load(Ordering::SeqCst);
    assert_eq!(fired, 3);
    assert!(handle.stopped());
    // The signal is up: driving the runtime further lets at most the tick
    // through that was already waited for.
    handle.runtime().block_on(async {
        sleep(Duration::from_millis(600)).await;
    });
    let after = ticks.load(Ordering::SeqCst);
    assert!(after <= fired + 1, "fired {after} times after {fired}");
    assert_eq!(after, 4);
}

#[test]
fn firings_are_not_early() {
    let cw = default_clockwork();
    let handle = cw.handle();
    let start = Instant::now() + Duration::from_millis(100);
    let period = Duration::from_millis(50);
    let (report, seen) = channel::<Instant>();
    let report = Mutex::new(report);
    schedule_repeating_task_at(
        &handle,
        move || {
            let _ = report.lock().unwrap().send(Instant::now());
        },
        start,
        period,
    );
    let stopper = handle.clone();
    handle.runtime().block_on(async move {
        sleep(Duration::from_millis(420)).await;
        stopper.stop();
    });
    let fired: Vec<Instant> = seen.try_iter().collect();
    assert!(fired.len() >= 5, "fired {} times", fired.len());
    for (n, at) in fired.iter().enumerate() {
        assert!(*at >= start + period * (n as u32));
    }
}

#[test]
fn one_shot_task_runs_once_after_its_delay() {
    let cw = default_clockwork();
    let handle = cw.handle();
    let runs = Arc::new(AtomicU32::new(0));
    let counter = runs.clone();
    schedule_oneof_task(
        &handle,
        move || {
            counter.fetch_add(1, Ordering::SeqCst);
        },
        Duration::from_millis(100),
    );
    handle.runtime().block_on(async {
        sleep(Duration::from_millis(40)).await;
    });
    assert_eq!(runs.load(Ordering::SeqCst), 0);
    handle.runtime().block_on(async {
        sleep(Duration::from_millis(200)).await;
    });
    assert_eq!(runs.load(Ordering::SeqCst), 1);
    handle.stop();
    handle.runtime().block_on(async {
        sleep(Duration::from_millis(200)).await;
    });
    assert_eq!(runs.load(Ordering::SeqCst), 1);
}

#[test]
fn one_shot_task_is_lost_when_the_runtime_goes_first() {
    let runs = Arc::new(AtomicU32::new(0));
    {
        let cw = default_clockwork();
        let handle = cw.handle();
        let counter = runs.clone();
        schedule_oneof_task(
            &handle,
            move || {
                counter.fetch_add(1, Ordering::SeqCst);
            },
            Duration::from_millis(200),
        );
        handle.runtime().block_on(async {
            sleep(Duration::from_millis(20)).await;
        });
    }
    // Let the delay go by on another runtime: the first one is gone.
    default_clockwork().handle().runtime().block_on(async {
        sleep(Duration::from_millis(300)).await;
    });
    assert_eq!(runs.load(Ordering::SeqCst), 0);
}

#[test]
fn one_shot_task_ignores_the_stop_signal() {
    let cw = default_clockwork();
    let handle = cw.handle();
    handle.stop();
    let runs = Arc::new(AtomicU32::new(0));
    let counter = runs.clone();
    schedule_oneof_task(
        &handle,
        move || {
            counter.fetch_add(1, Ordering::SeqCst);
        },
        Duration::from_millis(30),
    );
    handle.runtime().block_on(async {
        sleep(Duration::from_millis(120)).await;
    });
    assert_eq!(runs.load(Ordering::SeqCst), 1);
}

#[test]
fn repeating_task_scheduled_after_stop_never_fires() {
    let cw = default_clockwork();
    let handle = cw.handle();
    handle.stop();
    let ticks = Arc::new(AtomicU32::new(0));
    let counter = ticks.clone();
    schedule_repeating_task_at(
        &handle,
        move || {
            counter.fetch_add(1, Ordering::SeqCst);
        },
        Instant::now(),
        Duration::from_millis(10),
    );
    handle.runtime().block_on(async {
        sleep(Duration::from_millis(100)).await;
    });
    assert_eq!(ticks.load(Ordering::SeqCst), 0);
}
