//! Background tasks as scripts: what a worker sleeps for and what it
//! emits, step by step, until the task is done.

use crate::text::decimal_int;
use crate::text::push_decimal;
use crate::text::push_signed_decimal;
use vstd::prelude::*;

verus! {

/// Steps of the long-running task that report progress.
pub const LONG_TASK_STEPS: u64 = 10;

/// Milliseconds that each step of the long-running task takes.
pub const LONG_TASK_STEP_MS: u64 = 500;

/// What a worker does next for its task.
#[derive(Debug)]
pub enum TaskStep {
    /// Sleep for so many milliseconds.
    Sleep { millis: u64 },
    /// Hand this message to the event sink.
    Emit { message: String },
    /// Nothing is left to do.
    Done,
}

/// A step with its message as a character sequence. No script holds
/// `Done`: it is what a worker gets once the script has run out.
pub enum StepView {
    Sleep { millis: u64 },
    Emit { message: Seq<char> },
    Done,
}

impl View for TaskStep {
    type V = StepView;

    open spec fn view(&self) -> StepView {
        match self {
            TaskStep::Sleep { millis } => StepView::Sleep { millis: *millis },
            TaskStep::Emit { message } => StepView::Emit { message: message@ },
            TaskStep::Done => StepView::Done,
        }
    }
}

/// The time that a worker sleeps when it is asked for `millis`
/// milliseconds: a negative request wraps around to a very long sleep.
pub open spec fn sleep_millis(millis: i64) -> u64 {
    if millis >= 0 {
        millis as u64
    } else {
        (millis + 0x1_0000_0000_0000_0000) as u64
    }
}

/// The message that ends a delayed task.
pub open spec fn async_message(delay_ms: i64) -> Seq<char> {
    "Async task completed after "@ + decimal_int(delay_ms as int) + "ms"@
}

/// The message of round `iteration` of a periodic task of `count` rounds.
pub open spec fn periodic_message(iteration: int, count: int) -> Seq<char> {
    "Periodic task iteration "@ + decimal_int(iteration) + "/"@ + decimal_int(count)
}

/// The message that reports `percent` per cent of the long-running task.
pub open spec fn progress_message(percent: int) -> Seq<char> {
    "Long running task progress: "@ + decimal_int(percent) + "%"@
}

/// The message that ends the long-running task.
pub open spec fn completed_message() -> Seq<char> {
    "Long running task completed!"@
}

/// The delayed task: one sleep, then one message.
pub open spec fn async_script(delay_ms: i64) -> Seq<StepView> {
    seq![
        StepView::Sleep { millis: sleep_millis(delay_ms) },
        StepView::Emit { message: async_message(delay_ms) },
    ]
}

/// The periodic task: `count` rounds, each a sleep of the interval and
/// then the message of the round; no round where `count` is not
/// positive.
pub open spec fn periodic_script(interval_ms: i64, count: i32) -> Seq<StepView> {
    Seq::new(
        if count > 0 {
            (2 * count) as nat
        } else {
            0
        },
        |k: int|
            if k % 2 == 0 {
                StepView::Sleep { millis: sleep_millis(interval_ms) }
            } else {
                StepView::Emit { message: periodic_message(k / 2 + 1, count as int) }
            },
    )
}

/// The long-running task: ten steps, each a sleep and then the progress
/// reached in per cent, and the closing message after the tenth.
pub open spec fn long_running_script() -> Seq<StepView> {
    Seq::new(
        (2 * LONG_TASK_STEPS + 1) as nat,
        |k: int|
            if k == 2 * LONG_TASK_STEPS {
                StepView::Emit { message: completed_message() }
            } else if k % 2 == 0 {
                StepView::Sleep { millis: LONG_TASK_STEP_MS }
            } else {
                StepView::Emit { message: progress_message((k / 2 + 1) * 10) }
            },
    )
}

/// The messages that a script emits, in order.
pub open spec fn emitted(script: Seq<StepView>) -> Seq<Seq<char>>
    decreases script.len(),
{
    if script.len() == 0 {
        Seq::empty()
    } else {
        match script.last() {
            StepView::Emit { message } => emitted(script.drop_last()).push(message),
            _ => emitted(script.drop_last()),
        }
    }
}

/// The time slept in a script, all sleeps added up.
pub open spec fn slept(script: Seq<StepView>) -> int
    decreases script.len(),
{
    if script.len() == 0 {
        0
    } else {
        match script.last() {
            StepView::Sleep { millis } => slept(script.drop_last()) + millis,
            _ => slept(script.drop_last()),
        }
    }
}

/// The messages of a periodic task, first round to last.
pub open spec fn periodic_messages(count: i32) -> Seq<Seq<char>> {
    Seq::new(
        if count > 0 {
            count as nat
        } else {
            0
        },
        |i: int| periodic_message(i + 1, count as int),
    )
}

/// The messages of the long-running task: progress from 10 to 100 per
/// cent in steps of ten, then the closing message.
pub open spec fn long_running_messages() -> Seq<Seq<char>> {
    Seq::new(
        11,
        |i: int|
            if i < 10 {
                progress_message((i + 1) * 10)
            } else {
                completed_message()
            },
    )
}

proof fn lemma_periodic_prefix(interval_ms: i64, count: i32, k: nat)
    requires
        count > 0,
        k <= 2 * count,
    ensures
        emitted(periodic_script(interval_ms, count).take(k as int)) == periodic_messages(count).take(
            (k / 2) as int,
        ),
        slept(periodic_script(interval_ms, count).take(k as int)) == ((k + 1) / 2) * sleep_millis(
            interval_ms,
        ),
    decreases k,
{
    let script = periodic_script(interval_ms, count);
    let pause = sleep_millis(interval_ms) as int;
    if k == 0 {
        assert(emitted(script.take(0)) =~= periodic_messages(count).take(0));
    } else {
        lemma_periodic_prefix(interval_ms, count, (k - 1) as nat);
        assert(script.take(k as int).drop_last() =~= script.take(k - 1));
        assert(script.take(k as int).last() == script[k - 1]);
        if (k - 1) % 2 == 0 {
            assert((k - 1) / 2 == k / 2);
            assert((k + 1) / 2 == k / 2 + 1);
            assert(((k + 1) / 2) * pause == (k / 2) * pause + pause) by (nonlinear_arith)
                requires
                    (k + 1) / 2 == k / 2 + 1,
            ;
            assert(emitted(script.take(k as int)) =~= periodic_messages(count).take((k / 2) as int));
        } else {
            assert((k - 1) / 2 + 1 == k / 2);
            assert((k + 1) / 2 == k / 2);
            assert(periodic_messages(count).take((k / 2) as int) =~= periodic_messages(count).take(
                ((k - 1) / 2) as int,
            ).push(periodic_message((k - 1) / 2 + 1, count as int)));
        }
    }
}

proof fn lemma_long_running_prefix(k: nat)
    requires
        k <= 21,
    ensures
        emitted(long_running_script().take(k as int)) == long_running_messages().take(
            if k == 21 {
                11
            } else {
                (k / 2) as int
            },
        ),
        slept(long_running_script().take(k as int)) == (if k == 21 {
            10
        } else {
            ((k + 1) / 2) as int
        }) * LONG_TASK_STEP_MS,
    decreases k,
{
    let script = long_running_script();
    if k == 0 {
        assert(emitted(script.take(0)) =~= long_running_messages().take(0));
    } else {
        lemma_long_running_prefix((k - 1) as nat);
        assert(script.take(k as int).drop_last() =~= script.take(k - 1));
        assert(script.take(k as int).last() == script[k - 1]);
        if k == 21 {
            assert(long_running_messages().take(11) =~= long_running_messages().take(10).push(
                completed_message(),
            ));
        } else if (k - 1) % 2 == 0 {
            assert(emitted(script.take(k as int)) =~= long_running_messages().take((k / 2) as int));
        } else {
            assert(long_running_messages().take((k / 2) as int) =~= long_running_messages().take(
                ((k - 1) / 2) as int,
            ).push(progress_message(((k - 1) / 2 + 1) * 10)));
        }
    }
}

/// A delayed task sleeps once, for the delay, and then emits exactly one
/// message, which names the delay.
pub proof fn lemma_async_task_events(delay_ms: i64)
    ensures
        async_script(delay_ms).len() == 2,
        async_script(delay_ms)[0] == (StepView::Sleep { millis: sleep_millis(delay_ms) }),
        emitted(async_script(delay_ms)) == seq![async_message(delay_ms)],
        slept(async_script(delay_ms)) == sleep_millis(delay_ms),
{
    let script = async_script(delay_ms);
    assert(script.drop_last() =~= seq![script[0]]);
    assert(script.drop_last().drop_last() =~= Seq::<StepView>::empty());
    reveal_with_fuel(emitted, 3);
    reveal_with_fuel(slept, 3);
}

/// A periodic task emits exactly `count` messages, those of rounds 1 to
/// `count` in this order, and sleeps for the interval directly before
/// each of them; it emits nothing and sleeps not at all where `count` is
/// not positive.
pub proof fn lemma_periodic_task_events(interval_ms: i64, count: i32)
    ensures
        emitted(periodic_script(interval_ms, count)) == periodic_messages(count),
        emitted(periodic_script(interval_ms, count)).len() == (if count > 0 {
            count as int
        } else {
            0
        }),
        slept(periodic_script(interval_ms, count)) == (if count > 0 {
            count as int
        } else {
            0
        }) * sleep_millis(interval_ms),
        forall|i: int|
            #![trigger periodic_script(interval_ms, count)[2 * i]]
            0 <= i < count ==> periodic_script(interval_ms, count)[2 * i] == (StepView::Sleep {
                millis: sleep_millis(interval_ms),
            }) && periodic_script(interval_ms, count)[2 * i + 1] == (StepView::Emit {
                message: periodic_message(i + 1, count as int),
            }),
{
    let script = periodic_script(interval_ms, count);
    if count > 0 {
        lemma_periodic_prefix(interval_ms, count, (2 * count) as nat);
        assert(script.take(2 * count) =~= script);
        assert(periodic_messages(count).take(count as int) =~= periodic_messages(count));
    } else {
        assert(emitted(script) =~= periodic_messages(count));
    }
}

/// The long-running task emits exactly eleven messages: the progress in
/// per cent, 10, 20 and so on to 100, each directly after a step of half
/// a second, and then the closing message.
pub proof fn lemma_long_running_task_events()
    ensures
        emitted(long_running_script()) == long_running_messages(),
        emitted(long_running_script()).len() == 11,
        slept(long_running_script()) == LONG_TASK_STEPS * LONG_TASK_STEP_MS,
        forall|i: int|
            #![trigger long_running_script()[2 * i]]
            0 <= i < 10 ==> long_running_script()[2 * i] == (StepView::Sleep {
                millis: LONG_TASK_STEP_MS,
            }) && long_running_script()[2 * i + 1] == (StepView::Emit {
                message: progress_message((i + 1) * 10),
            }),
        long_running_script()[20] == (StepView::Emit { message: completed_message() }),
{
    lemma_long_running_prefix(21);
    assert(long_running_script().take(21) =~= long_running_script());
    assert(long_running_messages().take(11) =~= long_running_messages());
}

enum TaskKind {
    Delayed { delay_ms: i64 },
    Periodic { interval_ms: i64, count: i32 },
    LongRunning,
}

/// A task that is under way: its script and how far the worker has come.
pub struct TaskRun {
    kind: TaskKind,
    taken: u64,
}

impl View for TaskRun {
    type V = Seq<StepView>;

    /// What is left of the script.
    closed spec fn view(&self) -> Seq<StepView> {
        self.script().skip(self.taken as int)
    }
}

impl TaskRun {
    /// The whole script of the task, from its first step.
    pub closed spec fn script(&self) -> Seq<StepView> {
        match self.kind {
            TaskKind::Delayed { delay_ms } => async_script(delay_ms),
            TaskKind::Periodic { interval_ms, count } => periodic_script(interval_ms, count),
            TaskKind::LongRunning => long_running_script(),
        }
    }

    /// The worker has not come further than the script goes.
    #[verifier::type_invariant]
    spec fn within_script(&self) -> bool {
        self.taken <= self.script().len()
    }

    /// The next step of the task: the first of what is left, which is
    /// then taken off; `Done`, again and again, when nothing is left.
    pub fn next_step(&mut self) -> (step: TaskStep)
        ensures
            final(self).script() == old(self).script(),
            old(self)@.len() == 0 ==> step@ is Done && final(self)@ == old(self)@,
            old(self)@.len() > 0 ==> step@ == old(self)@[0] && final(self)@ == old(self)@.drop_first(),
    {
        proof {
            use_type_invariant(&*self);
        }
        let at: u64 = self.taken;
        let step = match self.kind {
            TaskKind::Delayed { delay_ms } => {
                if at == 0 {
                    TaskStep::Sleep { millis: wrapped_millis(delay_ms) }
                } else if at == 1 {
                    TaskStep::Emit { message: async_text(delay_ms) }
                } else {
                    TaskStep::Done
                }
            },
            TaskKind::Periodic { interval_ms, count } => {
                if count <= 0 || at >= 2 * (count as u64) {
                    TaskStep::Done
                } else if at % 2 == 0 {
                    TaskStep::Sleep { millis: wrapped_millis(interval_ms) }
                } else {
                    TaskStep::Emit { message: periodic_text((at / 2 + 1) as i32, count) }
                }
            },
            TaskKind::LongRunning => {
                if at > 2 * LONG_TASK_STEPS {
                    TaskStep::Done
                } else if at == 2 * LONG_TASK_STEPS {
                    TaskStep::Emit { message: "Long running task completed!".to_string() }
                } else if at % 2 == 0 {
                    TaskStep::Sleep { millis: LONG_TASK_STEP_MS }
                } else {
                    TaskStep::Emit { message: progress_text((at / 2 + 1) * 10) }
                }
            },
        };
        match step {
            TaskStep::Done => {},
            _ => {
                self.taken = at + 1;
                assert(self@ =~= old(self)@.drop_first());
            },
        }
        step
    }
}

/// The sleep that a request for `millis` milliseconds leads to.
pub fn wrapped_millis(millis: i64) -> (wrapped: u64)
    ensures
        wrapped == sleep_millis(millis),
{
    if millis >= 0 {
        millis as u64
    } else {
        u64::MAX - ((-(millis + 1)) as u64)
    }
}

/// The message that ends a delayed task.
pub fn async_text(delay_ms: i64) -> (text: String)
    ensures
        text@ == async_message(delay_ms),
{
    let mut text = String::from_str("Async task completed after ");
    push_signed_decimal(&mut text, delay_ms);
    text.append("ms");
    text
}

/// The message of round `iteration` of a periodic task of `count` rounds.
pub fn periodic_text(iteration: i32, count: i32) -> (text: String)
    ensures
        text@ == periodic_message(iteration as int, count as int),
{
    let mut text = String::from_str("Periodic task iteration ");
    push_signed_decimal(&mut text, iteration as i64);
    text.append("/");
    push_signed_decimal(&mut text, count as i64);
    text
}

/// The message that reports `percent` per cent of the long-running task.
pub fn progress_text(percent: u64) -> (text: String)
    ensures
        text@ == progress_message(percent as int),
{
    let mut text = String::from_str("Long running task progress: ");
    push_decimal(&mut text, percent);
    text.append("%");
    text
}

/// Starts the background tasks. A task is handed out as a [`TaskRun`];
/// the worker that owns it asks for one step after the other.
pub struct AsyncWorker;

impl AsyncWorker {
    /// A task that sleeps for `delay_ms` milliseconds and then emits one
    /// message that names the delay.
    pub fn run_async_task(delay_ms: i64) -> (run: TaskRun)
        ensures
            run@ == async_script(delay_ms),
    {
        let run = TaskRun { kind: TaskKind::Delayed { delay_ms }, taken: 0 };
        assert(run@ =~= async_script(delay_ms));
        run
    }

    /// A task of `count` rounds: in each it sleeps for `interval_ms`
    /// milliseconds and then emits the number of the round and `count`.
    pub fn run_periodic_task(interval_ms: i64, count: i32) -> (run: TaskRun)
        ensures
            run@ == periodic_script(interval_ms, count),
    {
        let run = TaskRun { kind: TaskKind::Periodic { interval_ms, count }, taken: 0 };
        assert(run@ =~= periodic_script(interval_ms, count));
        run
    }

    /// A task of ten steps of half a second: after each it emits the
    /// progress in per cent, and after the tenth a closing message.
    pub fn run_long_running_task() -> (run: TaskRun)
        ensures
            run@ == long_running_script(),
    {
        let run = TaskRun { kind: TaskKind::LongRunning, taken: 0 };
        assert(run@ =~= long_running_script());
        run
    }
}

} // verus!
