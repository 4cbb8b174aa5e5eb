use mainlogic::async_worker::async_text;
use mainlogic::async_worker::periodic_text;
use mainlogic::async_worker::progress_text;
use mainlogic::async_worker::wrapped_millis;
use mainlogic::async_worker::AsyncWorker;
use mainlogic::async_worker::TaskRun;
use mainlogic::async_worker::TaskStep;
use mainlogic::async_worker::LONG_TASK_STEPS;
use mainlogic::async_worker::LONG_TASK_STEP_MS;

/// What a worker sees of a task: sleeps and messages, in order.
#[derive(Debug, PartialEq)]
enum Seen {
    Slept(u64),
    Got(String),
}

fn drive(mut run: TaskRun, limit: usize) -> Vec<Seen> {
    let mut seen = Vec::new();
    for _ in 0..limit {
        match run.next_step() {
            TaskStep::Sleep { millis } => seen.push(Seen::Slept(millis)),
            TaskStep::Emit { message } => seen.push(Seen::Got(message)),
            TaskStep::Done => return seen,
        }
    }
    panic!("the task did not end within {} steps", limit);
}

fn messages(seen: &[Seen]) -> Vec<String> {
    let mut out = Vec::new();
    for step in seen {
        if let Seen::Got(message) = step {
            out.push(message.clone());
        }
    }
    out
}

#[test]
fn periodic_task_emits_each_round_in_order() {
    let seen = drive(AsyncWorker::run_periodic_task(10, 5), 100);
    assert_eq!(
        messages(&seen),
        vec![
            "Periodic task iteration 1/5",
            "Periodic task iteration 2/5",
            "Periodic task iteration 3/5",
            "Periodic task iteration 4/5",
            "Periodic task iteration 5/5",
        ]
    );
}

#[test]
fn periodic_task_sleeps_for_the_interval_before_each_message() {
    let seen = drive(AsyncWorker::run_periodic_task(10, 5), 100);
    assert_eq!(seen.len(), 10);
    for round in 0..5 {
        assert_eq!(seen[2 * round], Seen::Slept(10));
        assert_eq!(
            seen[2 * round + 1],
            Seen::Got(format!("Periodic task iteration {}/5", round + 1))
        );
    }
}

#[test]
fn periodic_task_without_rounds_is_done_at_once() {
    assert!(drive(AsyncWorker::run_periodic_task(10, 0), 10).is_empty());
    assert!(drive(AsyncWorker::run_periodic_task(10, -3), 10).is_empty());
    assert!(drive(AsyncWorker::run_periodic_task(10, i32::MIN), 10).is_empty());
}

#[test]
fn periodic_task_of_one_round() {
    let seen = drive(AsyncWorker::run_periodic_task(0, 1), 10);
    assert_eq!(
        seen,
        vec![Seen::Slept(0), Seen::Got("Periodic task iteration 1/1".to_string())]
    );
}

#[test]
fn periodic_task_counts_up_to_a_long_run() {
    let seen = drive(AsyncWorker::run_periodic_task(1, 1234), 10_000);
    let emitted = messages(&seen);
    assert_eq!(emitted.len(), 1234);
    assert_eq!(emitted[0], "Periodic task iteration 1/1234");
    assert_eq!(emitted[998], "Periodic task iteration 999/1234");
    assert_eq!(emitted[1233], "Periodic task iteration 1234/1234");
}

#[test]
fn long_running_task_reports_progress_and_completion() {
    let seen = drive(AsyncWorker::run_long_running_task(), 100);
    let emitted = messages(&seen);
    assert_eq!(emitted.len(), 11);
    for step in 0..10 {
        assert_eq!(
            emitted[step],
            format!("Long running task progress: {}%", (step + 1) * 10)
        );
    }
    assert_eq!(emitted[10], "Long running task completed!");
}

#[test]
fn long_running_task_takes_half_a_second_for_each_step() {
    let seen = drive(AsyncWorker::run_long_running_task(), 100);
    assert_eq!(seen.len(), 21);
    let mut slept = 0;
    for (place, step) in seen.iter().enumerate() {
        match step {
            Seen::Slept(millis) => {
                assert_eq!(*millis, 500);
                assert!(place % 2 == 0 && place < 20);
                slept += millis;
            }
            Seen::Got(_) => assert!(place % 2 == 1 || place == 20),
        }
    }
    assert_eq!(slept, 5000);
    assert_eq!(LONG_TASK_STEPS * LONG_TASK_STEP_MS, 5000);
    assert_eq!(seen[19], Seen::Got("Long running task progress: 100%".to_string()));
    assert_eq!(seen[20], Seen::Got("Long running task completed!".to_string()));
}

#[test]
fn delayed_task_sleeps_and_then_reports_the_delay() {
    let seen = drive(AsyncWorker::run_async_task(250), 10);
    assert_eq!(
        seen,
        vec![
            Seen::Slept(250),
            Seen::Got("Async task completed after 250ms".to_string()),
        ]
    );
}

#[test]
fn delayed_task_without_delay() {
    let seen = drive(AsyncWorker::run_async_task(0), 10);
    assert_eq!(
        seen,
        vec![Seen::Slept(0), Seen::Got("Async task completed after 0ms".to_string())]
    );
}

#[test]
fn a_negative_delay_wraps_to_a_long_sleep() {
    let seen = drive(AsyncWorker::run_async_task(-1), 10);
    assert_eq!(
        seen,
        vec![
            Seen::Slept(u64::MAX),
            Seen::Got("Async task completed after -1ms".to_string()),
        ]
    );
    assert_eq!(wrapped_millis(-1), u64::MAX);
    assert_eq!(wrapped_millis(-2), (-2i64) as u64);
    assert_eq!(wrapped_millis(i64::MIN), i64::MIN as u64);
    assert_eq!(wrapped_millis(i64::MIN), 1u64 << 63);
    assert_eq!(wrapped_millis(i64::MAX), i64::MAX as u64);
    assert_eq!(wrapped_millis(0), 0);
}

#[test]
fn a_finished_task_stays_done() {
    let mut run = AsyncWorker::run_async_task(5);
    assert!(matches!(run.next_step(), TaskStep::Sleep { millis: 5 }));
    assert!(matches!(run.next_step(), TaskStep::Emit { .. }));
    for _ in 0..5 {
        assert!(matches!(run.next_step(), TaskStep::Done));
    }
    let mut long = AsyncWorker::run_long_running_task();
    for _ in 0..21 {
        assert!(!matches!(long.next_step(), TaskStep::Done));
    }
    for _ in 0..3 {
        assert!(matches!(long.next_step(), TaskStep::Done));
    }
}

#[test]
fn tasks_run_side_by_side_without_mixing() {
    let mut first = AsyncWorker::run_periodic_task(7, 2);
    let mut second = AsyncWorker::run_periodic_task(9, 3);
    let mut seen_first = Vec::new();
    let mut seen_second = Vec::new();
    for _ in 0..8 {
        if let TaskStep::Emit { message } = first.next_step() {
            seen_first.push(message);
        }
        if let TaskStep::Emit { message } = second.next_step() {
            seen_second.push(message);
        }
    }
    assert_eq!(
        seen_first,
        vec!["Periodic task iteration 1/2", "Periodic task iteration 2/2"]
    );
    assert_eq!(
        seen_second,
        vec![
            "Periodic task iteration 1/3",
            "Periodic task iteration 2/3",
            "Periodic task iteration 3/3",
        ]
    );
}

#[test]
fn messages_spell_their_numbers_in_decimal() {
    assert_eq!(async_text(1500), "Async task completed after 1500ms");
    assert_eq!(
        async_text(i64::MIN),
        "Async task completed after -9223372036854775808ms"
    );
    assert_eq!(
        async_text(i64::MAX),
        "Async task completed after 9223372036854775807ms"
    );
    assert_eq!(periodic_text(3, 10), "Periodic task iteration 3/10");
    assert_eq!(
        periodic_text(i32::MAX, i32::MAX),
        "Periodic task iteration 2147483647/2147483647"
    );
    assert_eq!(periodic_text(-4, -2), "Periodic task iteration -4/-2");
    assert_eq!(progress_text(0), "Long running task progress: 0%");
    assert_eq!(progress_text(100), "Long running task progress: 100%");
}
