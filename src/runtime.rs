//! The decisions of the executor that drives one task on the audio server's
//! event loop: when to poll the task, and how to stop the loop.
//!
//! The loop holds a deferred "poll" event, which is armed at first, and a
//! readiness event on the wake channel, which other threads write a byte to.
//! On readiness the caller drains the channel and calls `on_wake`; when the
//! deferred event fires it calls `on_poll_event`, polls the task if told to,
//! and reports the outcome with `on_poll_result`.

use vstd::prelude::*;

verus! {

/// The loop's exit status once the task has produced its value.
pub const EXIT_SUCCESS: i32 = 0;

/// The loop's exit status when polling the task panicked.
pub const EXIT_PANICKED: i32 = 111;

/// What one poll of the task gave.
#[derive(Clone, Copy, PartialEq, Eq, Structural, Debug)]
pub enum PollOutcome {
    Pending,
    Ready,
    Panicked,
}

/// Whether the deferred poll event is armed, and the exit status once the
/// loop has been asked to stop.
pub struct LoopControl {
    armed: bool,
    exit: Option<i32>,
}

impl View for LoopControl {
    type V = (bool, Option<i32>);

    closed spec fn view(&self) -> (bool, Option<i32>) {
        (self.armed, self.exit)
    }
}

/// The state after the wake channel was found readable and drained.
pub open spec fn woken(v: (bool, Option<i32>)) -> (bool, Option<i32>) {
    (v.1 is None, v.1)
}

/// The state after the deferred event fired, and whether the task is polled.
pub open spec fn fired(v: (bool, Option<i32>)) -> ((bool, Option<i32>), bool) {
    ((false, v.1), v.0 && v.1 is None)
}

/// The exit status that a poll outcome asks for.
pub open spec fn exit_for(o: PollOutcome) -> Option<i32> {
    match o {
        PollOutcome::Pending => None,
        PollOutcome::Ready => Some(EXIT_SUCCESS),
        PollOutcome::Panicked => Some(EXIT_PANICKED),
    }
}

impl LoopControl {
    /// A loop with the poll event armed, so that the task is polled once at
    /// the start.
    pub fn new() -> (r: Self)
        ensures
            r@ == (true, None::<i32>),
    {
        LoopControl { armed: true, exit: None }
    }

    /// The wake channel was readable and has been drained. Returns whether
    /// the deferred poll event is to be enabled: always, until the task has
    /// finished.
    pub fn on_wake(&mut self) -> (enable: bool)
        ensures
            final(self)@ == woken(old(self)@),
            enable == final(self)@.0,
    {
        self.armed = self.exit.is_none();
        self.armed
    }

    /// The deferred event fired; it disarms itself. Returns whether to poll
    /// the task now.
    pub fn on_poll_event(&mut self) -> (poll: bool)
        ensures
            (final(self)@, poll) == fired(old(self)@),
    {
        let poll = self.armed && self.exit.is_none();
        self.armed = false;
        poll
    }

    /// Records what a poll gave. Returns the status with which to stop the
    /// loop, if the task has finished.
    pub fn on_poll_result(&mut self, outcome: PollOutcome) -> (quit: Option<i32>)
        requires
            old(self)@.1 is None,
        ensures
            quit == exit_for(outcome),
            final(self)@ == (old(self)@.0, quit),
    {
        let quit = match outcome {
            PollOutcome::Pending => None,
            PollOutcome::Ready => Some(EXIT_SUCCESS),
            PollOutcome::Panicked => Some(EXIT_PANICKED),
        };
        self.exit = quit;
        quit
    }
}

/// What reaches the loop: a drained wake notification, or a dispatch of the
/// deferred event, which does something only while it is armed.
#[derive(Clone, Copy, PartialEq, Eq, Structural, Debug)]
pub enum LoopEvent {
    Wake,
    Dispatch,
}

/// The state reached through `evs`, and how many polls were made, when each
/// poll leaves the task pending.
pub open spec fn run_loop(v: (bool, Option<i32>), evs: Seq<LoopEvent>) -> ((bool, Option<i32>), nat)
    decreases evs.len(),
{
    if evs.len() == 0 {
        (v, 0)
    } else {
        let (w, n) = run_loop(v, evs.drop_last());
        match evs.last() {
            LoopEvent::Wake => (woken(w), n),
            LoopEvent::Dispatch => {
                let (x, polled) = fired(w);
                (x, if polled {
                    n + 1
                } else {
                    n
                })
            },
        }
    }
}

proof fn lemma_wakes_arm(v: (bool, Option<i32>), k: nat)
    requires
        v.1 is None,
        k > 0,
    ensures
        run_loop(v, Seq::new(k, |i: int| LoopEvent::Wake)) == ((true, None::<i32>), 0nat),
    decreases k,
{
    let evs = Seq::new(k, |i: int| LoopEvent::Wake);
    assert(evs.last() == LoopEvent::Wake);
    if k > 1 {
        assert(evs.drop_last() =~= Seq::new((k - 1) as nat, |i: int| LoopEvent::Wake));
        lemma_wakes_arm(v, (k - 1) as nat);
    } else {
        assert(evs.drop_last() =~= Seq::<LoopEvent>::empty());
        assert(run_loop(v, evs.drop_last()) == (v, 0nat));
    }
}

proof fn lemma_dispatches(v: (bool, Option<i32>), k: nat, m: nat)
    requires
        v.1 is None,
        k > 0,
        m > 0,
    ensures
        run_loop(
            v,
            Seq::new(k, |i: int| LoopEvent::Wake) + Seq::new(m, |i: int| LoopEvent::Dispatch),
        ) == ((false, None::<i32>), 1nat),
    decreases m,
{
    let wakes = Seq::new(k, |i: int| LoopEvent::Wake);
    let evs = wakes + Seq::new(m, |i: int| LoopEvent::Dispatch);
    assert(evs.last() == LoopEvent::Dispatch);
    if m > 1 {
        assert(evs.drop_last() =~= wakes + Seq::new((m - 1) as nat, |i: int| LoopEvent::Dispatch));
        lemma_dispatches(v, k, (m - 1) as nat);
    } else {
        assert(evs.drop_last() =~= wakes);
        lemma_wakes_arm(v, k);
    }
}

/// However many wake notifications reach the loop between two polls, the
/// task is polled exactly once after them, and no further dispatch polls it
/// again until another wake arrives.
pub proof fn lemma_wakes_coalesce(v: (bool, Option<i32>), k: nat, m: nat)
    requires
        v == (false, None::<i32>),
        k > 0,
        m > 0,
    ensures
        run_loop(
            v,
            Seq::new(k, |i: int| LoopEvent::Wake) + Seq::new(m, |i: int| LoopEvent::Dispatch),
        ).1 == 1,
        run_loop(
            v,
            Seq::new(k, |i: int| LoopEvent::Wake) + Seq::new(m, |i: int| LoopEvent::Dispatch),
        ).0 == v,
{
    lemma_dispatches(v, k, m);
}

} // verus!
