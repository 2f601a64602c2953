//! The decisions of a scheduled task.
//!
//! A scheduled task is driven from outside: the driver asks the task what to
//! do next, carries that out (waits for the next instant of the schedule, or
//! calls the task's work) and asks again. The task itself only decides. A
//! repeating task looks at the stop signal before every wait and at no other
//! time; a task that runs once never looks at it.

use vstd::prelude::*;

verus! {

/// How often a scheduled task runs.
#[derive(Clone, Copy, Debug, PartialEq, Eq, Structural)]
pub enum Schedule {
    /// Once per period, until the stop signal is seen raised.
    Repeating,
    /// A single time, after a delay.
    Once,
}

/// Where a scheduled task stands.
#[derive(Clone, Copy, Debug, PartialEq, Eq, Structural)]
pub enum TaskPhase {
    /// About to decide whether to go on.
    AtCheck,
    /// A wait has been asked for and is not yet known to be over.
    Waiting,
    /// Nothing will be asked for any more.
    Finished,
}

/// What the driver of a scheduled task has to do next.
#[derive(Clone, Copy, Debug, PartialEq, Eq, Structural)]
pub enum TaskAction {
    /// Wait for the next instant of the schedule, then ask again.
    Wait,
    /// Call the task's work, then ask again.
    Fire,
    /// Stop driving the task.
    Finish,
}

/// A scheduled task as contracts see it.
pub struct TaskState {
    /// How often the task runs.
    pub schedule: Schedule,
    /// Where the task stands.
    pub phase: TaskPhase,
}

/// A task that has just been scheduled.
pub open spec fn scheduled(schedule: Schedule) -> TaskState {
    TaskState { schedule, phase: TaskPhase::AtCheck }
}

/// One decision: the state that follows and what the driver is asked to do,
/// given what the stop signal read when the driver asked.
pub open spec fn step(task: TaskState, stopped: bool) -> (TaskState, TaskAction) {
    match task.phase {
        TaskPhase::AtCheck => {
            if task.schedule == Schedule::Repeating && stopped {
                (TaskState { phase: TaskPhase::Finished, ..task }, TaskAction::Finish)
            } else {
                (TaskState { phase: TaskPhase::Waiting, ..task }, TaskAction::Wait)
            }
        },
        TaskPhase::Waiting => {
            if task.schedule == Schedule::Repeating {
                (TaskState { phase: TaskPhase::AtCheck, ..task }, TaskAction::Fire)
            } else {
                (TaskState { phase: TaskPhase::Finished, ..task }, TaskAction::Fire)
            }
        },
        TaskPhase::Finished => (task, TaskAction::Finish),
    }
}

/// The state of a task after the driver has asked `n` times, where
/// `reads[i]` is what the stop signal read at the moment of question `i`.
pub open spec fn state_after(task: TaskState, reads: Seq<bool>, n: nat) -> TaskState
    decreases n,
{
    if n == 0 {
        task
    } else {
        step(state_after(task, reads, (n - 1) as nat), reads[n - 1]).0
    }
}

/// The answer to question `i`.
pub open spec fn action_at(task: TaskState, reads: Seq<bool>, i: nat) -> TaskAction {
    step(state_after(task, reads, i), reads[i as int]).1
}

/// How many of the first `n` answers are `Fire`.
pub open spec fn fires(task: TaskState, reads: Seq<bool>, n: nat) -> nat
    decreases n,
{
    if n == 0 {
        0
    } else {
        let before = fires(task, reads, (n - 1) as nat);
        if action_at(task, reads, (n - 1) as nat) == TaskAction::Fire {
            before + 1
        } else {
            before
        }
    }
}

/// How many of the first `n` answers are `Wait`.
pub open spec fn waits(task: TaskState, reads: Seq<bool>, n: nat) -> nat
    decreases n,
{
    if n == 0 {
        0
    } else {
        let before = waits(task, reads, (n - 1) as nat);
        if action_at(task, reads, (n - 1) as nat) == TaskAction::Wait {
            before + 1
        } else {
            before
        }
    }
}

/// The decisions of one scheduled task.
pub struct ScheduledTask {
    schedule: Schedule,
    phase: TaskPhase,
}

impl View for ScheduledTask {
    type V = TaskState;

    closed spec fn view(&self) -> TaskState {
        TaskState { schedule: self.schedule, phase: self.phase }
    }
}

impl ScheduledTask {
    /// A task with the given schedule, about to make its first decision.
    pub fn new(schedule: Schedule) -> (task: Self)
        ensures
            task@ == scheduled(schedule),
    {
        ScheduledTask { schedule, phase: TaskPhase::AtCheck }
    }

    /// The task's schedule.
    pub fn schedule(&self) -> (schedule: Schedule)
        ensures
            schedule == self@.schedule,
    {
        self.schedule
    }

    /// Where the task stands.
    pub fn phase(&self) -> (phase: TaskPhase)
        ensures
            phase == self@.phase,
    {
        self.phase
    }

    /// Decides what the driver does next. `stopped` is what the stop signal
    /// read just now; it counts only where a repeating task stands at its
    /// check. The driver carries the answer out before it asks again.
    pub fn advance(&mut self, stopped: bool) -> (action: TaskAction)
        ensures
            (final(self)@, action) == step(old(self)@, stopped),
    {
        match self.phase {
            TaskPhase::AtCheck => {
                let repeating = match self.schedule {
                    Schedule::Repeating => true,
                    Schedule::Once => false,
                };
                if repeating && stopped {
                    self.phase = TaskPhase::Finished;
                    TaskAction::Finish
                } else {
                    self.phase = TaskPhase::Waiting;
                    TaskAction::Wait
                }
            },
            TaskPhase::Waiting => {
                match self.schedule {
                    Schedule::Repeating => {
                        self.phase = TaskPhase::AtCheck;
                    },
                    Schedule::Once => {
                        self.phase = TaskPhase::Finished;
                    },
                }
                TaskAction::Fire
            },
            TaskPhase::Finished => TaskAction::Finish,
        }
    }
}

/// A task that has finished stays finished and never fires again, whatever
/// the stop signal reads from then on.
pub proof fn lemma_finished_is_final(task: TaskState, reads: Seq<bool>, m: nat, n: nat)
    requires
        m <= n,
        state_after(task, reads, m).phase == TaskPhase::Finished,
    ensures
        state_after(task, reads, n).phase == TaskPhase::Finished,
        fires(task, reads, n) == fires(task, reads, m),
        waits(task, reads, n) == waits(task, reads, m),
    decreases n,
{
    if n > m {
        lemma_finished_is_final(task, reads, m, (n - 1) as nat);
    }
}

/// A task keeps its schedule.
pub proof fn lemma_schedule_is_kept(task: TaskState, reads: Seq<bool>, n: nat)
    ensures
        state_after(task, reads, n).schedule == task.schedule,
    decreases n,
{
    if n > 0 {
        lemma_schedule_is_kept(task, reads, (n - 1) as nat);
    }
}

/// Every firing uses up one wait of its own: a newly scheduled task that is
/// waiting has asked for one wait more than it has fired, and otherwise for
/// exactly as many.
pub proof fn lemma_one_wait_per_firing(schedule: Schedule, reads: Seq<bool>, n: nat)
    ensures
        state_after(scheduled(schedule), reads, n).phase == TaskPhase::Waiting ==> waits(
            scheduled(schedule),
            reads,
            n,
        ) == fires(scheduled(schedule), reads, n) + 1,
        state_after(scheduled(schedule), reads, n).phase != TaskPhase::Waiting ==> waits(
            scheduled(schedule),
            reads,
            n,
        ) == fires(scheduled(schedule), reads, n),
    decreases n,
{
    if n > 0 {
        lemma_one_wait_per_firing(schedule, reads, (n - 1) as nat);
    }
}

/// A firing directly follows the wait that it uses up: the answer before a
/// `Fire` is `Wait`, and no task starts with a `Fire`.
pub proof fn lemma_firing_follows_wait(schedule: Schedule, reads: Seq<bool>, j: nat)
    requires
        action_at(scheduled(schedule), reads, j) == TaskAction::Fire,
    ensures
        j >= 1,
        action_at(scheduled(schedule), reads, (j - 1) as nat) == TaskAction::Wait,
        waits(scheduled(schedule), reads, j) == fires(scheduled(schedule), reads, j) + 1,
{
    lemma_one_wait_per_firing(schedule, reads, j);
}

/// While the stop signal is never seen raised, a repeating task goes on for
/// ever, in turn waiting and firing: question `2k` is answered by the wait for
/// tick `k + 1`, question `2k + 1` by firing number `k + 1`.
pub proof fn lemma_repeating_alternates(reads: Seq<bool>, k: nat)
    requires
        forall|i: int| 0 <= i <= 2 * k ==> !(#[trigger] reads[i]),
    ensures
        state_after(scheduled(Schedule::Repeating), reads, 2 * k).phase == TaskPhase::AtCheck,
        action_at(scheduled(Schedule::Repeating), reads, 2 * k) == TaskAction::Wait,
        action_at(scheduled(Schedule::Repeating), reads, 2 * k + 1) == TaskAction::Fire,
        fires(scheduled(Schedule::Repeating), reads, 2 * k) == k,
        waits(scheduled(Schedule::Repeating), reads, 2 * k) == k,
    decreases k,
{
    let task = scheduled(Schedule::Repeating);
    if k > 0 {
        let j = (k - 1) as nat;
        lemma_repeating_alternates(reads, j);
        assert(!reads[(2 * j) as int]);
        assert(state_after(task, reads, 2 * j + 1) == step(
            state_after(task, reads, 2 * j),
            reads[(2 * j) as int],
        ).0);
        assert(state_after(task, reads, 2 * j + 2) == step(
            state_after(task, reads, 2 * j + 1),
            reads[(2 * j + 1) as int],
        ).0);
        assert(fires(task, reads, 2 * j + 1) == fires(task, reads, 2 * j));
        assert(fires(task, reads, 2 * j + 2) == fires(task, reads, 2 * j + 1) + 1);
        assert(waits(task, reads, 2 * j + 1) == waits(task, reads, 2 * j) + 1);
        assert(waits(task, reads, 2 * j + 2) == waits(task, reads, 2 * j + 1));
    }
    assert(!reads[(2 * k) as int]);
    assert(state_after(task, reads, 2 * k + 1) == step(
        state_after(task, reads, 2 * k),
        reads[(2 * k) as int],
    ).0);
}

/// No firing comes before it is due.
///
/// `times[i]` is the moment of question `i`. The waits of a schedule are due
/// one period apart, the first at `start`; the driver asks again after a
/// wait only when that wait is over, that is, not before it is due. Then
/// firing number `N` happens no earlier than `start + (N - 1) * period`, and
/// the instants at which consecutive firings are due lie exactly one period
/// apart. (A firing that comes late does not move the ones after it, so two
/// firings themselves may lie closer together than one period.)
pub proof fn lemma_firing_not_before_due(
    schedule: Schedule,
    reads: Seq<bool>,
    times: Seq<int>,
    start: int,
    period: int,
    j: nat,
)
    requires
        forall|i: nat|
            i < j && action_at(scheduled(schedule), reads, i) == TaskAction::Wait
                ==> #[trigger] times[(i + 1) as int] >= start + waits(
                scheduled(schedule),
                reads,
                i,
            ) * period,
        action_at(scheduled(schedule), reads, j) == TaskAction::Fire,
    ensures
        times[j as int] >= start + fires(scheduled(schedule), reads, j) * period,
        (start + (fires(scheduled(schedule), reads, j) + 1) * period) - (start + fires(
            scheduled(schedule),
            reads,
            j,
        ) * period) == period,
{
    let task = scheduled(schedule);
    lemma_firing_follows_wait(schedule, reads, j);
    let i = (j - 1) as nat;
    assert(times[(i + 1) as int] >= start + waits(task, reads, i) * period);
    assert(waits(task, reads, j) == waits(task, reads, i) + 1);
    assert(waits(task, reads, i) == fires(task, reads, j));
    let f = fires(task, reads, j);
    assert((start + (f + 1) * period) - (start + f * period) == period) by (nonlinear_arith);
}

/// Once a repeating task has seen the stop signal raised at its check, it
/// never fires again.
pub proof fn lemma_no_firing_after_seen_stop(task: TaskState, reads: Seq<bool>, i: nat, n: nat)
    requires
        task.schedule == Schedule::Repeating,
        state_after(task, reads, i).phase == TaskPhase::AtCheck,
        reads[i as int],
        i < n,
    ensures
        action_at(task, reads, i) == TaskAction::Finish,
        fires(task, reads, n) == fires(task, reads, i),
        state_after(task, reads, n).phase == TaskPhase::Finished,
{
    lemma_schedule_is_kept(task, reads, i);
    assert(state_after(task, reads, i + 1) == step(state_after(task, reads, i), reads[i as int]).0);
    assert(fires(task, reads, i + 1) == fires(task, reads, i));
    lemma_finished_is_final(task, reads, i + 1, n);
}

/// After the stop signal is raised a repeating task fires at most once more.
///
/// From question `k` on every read of the signal gives `true`. Then among
/// the answers from `k` on there is at most one `Fire`: exactly one if the
/// task was in the middle of a wait at that moment and the driver goes on
/// asking, none if it stood at its check or had finished. Two questions
/// later the task has finished.
pub proof fn lemma_at_most_one_firing_after_stop(
    task: TaskState,
    reads: Seq<bool>,
    k: nat,
    n: nat,
)
    requires
        task.schedule == Schedule::Repeating,
        k <= n,
        forall|i: int| k <= i < n ==> #[trigger] reads[i],
    ensures
        fires(task, reads, n) <= fires(task, reads, k) + 1,
        state_after(task, reads, k).phase != TaskPhase::Waiting ==> fires(task, reads, n) == fires(
            task,
            reads,
            k,
        ),
        state_after(task, reads, k).phase == TaskPhase::Waiting && n > k ==> fires(task, reads, n)
            == fires(task, reads, k) + 1,
        n >= k + 2 ==> state_after(task, reads, n).phase == TaskPhase::Finished,
{
    lemma_schedule_is_kept(task, reads, k);
    let at_k = state_after(task, reads, k);
    if n > k {
        assert(reads[k as int]);
        assert(state_after(task, reads, k + 1) == step(at_k, reads[k as int]).0);
        match at_k.phase {
            TaskPhase::Finished => {
                lemma_finished_is_final(task, reads, k, n);
            },
            TaskPhase::AtCheck => {
                lemma_no_firing_after_seen_stop(task, reads, k, n);
            },
            TaskPhase::Waiting => {
                assert(fires(task, reads, k + 1) == fires(task, reads, k) + 1);
                if n > k + 1 {
                    lemma_no_firing_after_seen_stop(task, reads, k + 1, n);
                }
            },
        }
    }
}

/// A task that runs once asks for one wait, fires when that wait is over and
/// is finished, whatever the stop signal reads. A driver that is torn down
/// before the wait is over has asked once and the task has not fired; a driver
/// that outlives the wait sees the task fire exactly once.
pub proof fn lemma_once_fires_exactly_once(reads: Seq<bool>, n: nat)
    ensures
        action_at(scheduled(Schedule::Once), reads, 0) == TaskAction::Wait,
        action_at(scheduled(Schedule::Once), reads, 1) == TaskAction::Fire,
        n >= 2 ==> action_at(scheduled(Schedule::Once), reads, n) == TaskAction::Finish,
        fires(scheduled(Schedule::Once), reads, n) == (if n >= 2 {
            1nat
        } else {
            0nat
        }),
{
    let task = scheduled(Schedule::Once);
    assert(state_after(task, reads, 1) == step(state_after(task, reads, 0), reads[0]).0);
    assert(state_after(task, reads, 2) == step(state_after(task, reads, 1), reads[1]).0);
    assert(fires(task, reads, 0) == 0);
    assert(fires(task, reads, 1) == 0);
    assert(fires(task, reads, 2) == 1);
    if n >= 2 {
        lemma_finished_is_final(task, reads, 2, n);
    }
}

} // verus!
