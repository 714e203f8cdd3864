use vstd::prelude::*;
use crate::debounce::{
    Debouncer,
    Input,
    is_idle,
    run,
    step_spec,
    window_elapsed,
    extends_burst,
    newest_event,
    lemma_separate_edits_two_signals,
    lemma_repeat_in_window_single_signal,
    lemma_interleaved_burst_single_signal,
};
use crate::reader::{ReadError, message_spec};

verus! {

/// The name under which change notifications are published.
pub const CONFIG_CHANGED_EVENT: &'static str = "config_changed";

/// The quiet window, in milliseconds, that closes a burst of raw events.
pub const DEBOUNCE_WINDOW_MS: u64 = 10;

/// What the task asks its host to do after an input.
#[derive(Clone, Copy, Debug, PartialEq, Eq, Structural)]
pub enum Action {
    /// Nothing: keep waiting for raw events or for the pending deadline.
    Wait,
    /// Read the settings file afresh and publish one notification.
    ReadAndPublish,
}

/// What is published for one change: the offset, or why it could not be read.
#[derive(Debug)]
pub enum Notification {
    Offset(serde_json::Number),
    Failure(String),
}

/// The long-lived watcher: whether it watches at all, and its debouncer.
#[derive(Clone, Copy, Debug, PartialEq, Eq, Structural)]
pub struct WatcherTask {
    pub watching: bool,
    pub debouncer: Debouncer,
}

/// The task after one input, and what it asks of its host. A task that is
/// not watching ignores everything; a watching one asks for one read and
/// publication for each change signal of its debouncer.
pub open spec fn task_step_spec(t: WatcherTask, i: Input) -> (WatcherTask, Action) {
    if !t.watching {
        (t, Action::Wait)
    } else {
        let (d, signal) = step_spec(t.debouncer, i);
        (
            WatcherTask { debouncer: d, ..t },
            if signal {
                Action::ReadAndPublish
            } else {
                Action::Wait
            },
        )
    }
}

/// The task after a sequence of inputs, and how many publications it asked
/// for on the way.
pub open spec fn task_run(t: WatcherTask, inputs: Seq<Input>) -> (WatcherTask, nat)
    decreases inputs.len(),
{
    if inputs.len() == 0 {
        (t, 0)
    } else {
        let (t1, a) = task_step_spec(t, inputs[0]);
        let (t2, n) = task_run(t1, inputs.drop_first());
        (t2, n + if a == Action::ReadAndPublish { 1nat } else { 0nat })
    }
}

impl WatcherTask {
    /// The task at startup: it watches only when the settings file was found,
    /// and otherwise stays inert for the life of the process.
    pub fn start(target_exists: bool, window: u64) -> (r: WatcherTask)
        ensures
            r.watching == target_exists,
            r.debouncer.window == window,
            is_idle(r.debouncer),
    {
        WatcherTask { watching: target_exists, debouncer: Debouncer::new(window) }
    }

    /// Stops the task for good, as when the file-system subscription could
    /// not be set up.
    pub fn stop(&mut self)
        ensures
            !final(self).watching,
            final(self).debouncer == old(self).debouncer,
    {
        self.watching = false;
    }

    /// Feeds one input to the task and returns what the host must do.
    pub fn handle(&mut self, input: Input) -> (a: Action)
        ensures
            (*final(self), a) == task_step_spec(*old(self), input),
    {
        if !self.watching {
            Action::Wait
        } else if self.debouncer.step(input) {
            Action::ReadAndPublish
        } else {
            Action::Wait
        }
    }

    /// When the host must feed the task the passing of time next, if ever.
    pub fn deadline(&self) -> (r: Option<u64>)
        ensures
            !self.watching ==> r is None,
            self.watching ==> r == crate::debounce::deadline_spec(self.debouncer),
    {
        if self.watching {
            self.debouncer.deadline()
        } else {
            None
        }
    }
}

/// Turns one read of the settings file into the notification to publish:
/// the offset on success, the failure's description otherwise.
pub fn notification(read: Result<serde_json::Number, ReadError>) -> (r: Notification)
    ensures
        read matches Ok(n) ==> r == Notification::Offset(n),
        read matches Err(e) ==> (r matches Notification::Failure(m) && m@ == message_spec(e)),
{
    match read {
        Ok(n) => Notification::Offset(n),
        Err(e) => Notification::Failure(e.message()),
    }
}

/// A task that did not start watching (its file was missing at startup)
/// never asks for a publication, whatever happens afterwards.
pub proof fn lemma_inert_task_never_publishes(t: WatcherTask, inputs: Seq<Input>)
    requires
        !t.watching,
    ensures
        task_run(t, inputs) == (t, 0nat),
    decreases inputs.len(),
{
    if inputs.len() > 0 {
        lemma_inert_task_never_publishes(t, inputs.drop_first());
    }
}

/// A watching task asks for exactly one read and publication per change
/// signal of its debouncer, over any sequence of inputs.
pub proof fn lemma_publishes_match_signals(t: WatcherTask, inputs: Seq<Input>)
    requires
        t.watching,
    ensures
        task_run(t, inputs).0 == (WatcherTask { debouncer: run(t.debouncer, inputs).0, ..t }),
        task_run(t, inputs).1 == run(t.debouncer, inputs).1,
    decreases inputs.len(),
{
    if inputs.len() > 0 {
        let t1 = task_step_spec(t, inputs[0]).0;
        lemma_publishes_match_signals(t1, inputs.drop_first());
    }
}

/// Two edits of the watched file separated by more than the quiet window,
/// with time observed in the gap and after the second edit's window, make a
/// freshly started watching task ask for exactly two reads and publications.
pub proof fn lemma_separate_edits_two_publishes(t: WatcherTask, a: u64, x: u64, b: u64, y: u64)
    requires
        t.watching,
        is_idle(t.debouncer),
        window_elapsed(a, t.debouncer.window, x),
        x <= b,
        window_elapsed(b, t.debouncer.window, y),
    ensures
        task_run(
            t,
            seq![
                Input::Raw { at: a, target: true },
                Input::Tick { at: x },
                Input::Raw { at: b, target: true },
                Input::Tick { at: y },
            ],
        ).1 == 2,
{
    let s = seq![
        Input::Raw { at: a, target: true },
        Input::Tick { at: x },
        Input::Raw { at: b, target: true },
        Input::Tick { at: y },
    ];
    lemma_separate_edits_two_signals(t.debouncer, a, x, b, y);
    lemma_publishes_match_signals(t, s);
}

/// A burst of raw events about the watched file, interleaved with time that
/// comes before the window of its newest event closes, makes a freshly
/// started watching task ask for no read while it lasts, and for exactly one
/// once time reaches the end of that window.
pub proof fn lemma_burst_single_publish(t: WatcherTask, first: u64, rest: Seq<Input>, at: u64)
    requires
        t.watching,
        is_idle(t.debouncer),
        extends_burst(rest, t.debouncer.window, first),
    ensures
        ({
            let b = seq![Input::Raw { at: first, target: true }] + rest;
            &&& task_run(t, b).1 == 0
            &&& task_run(t, b.push(Input::Tick { at })).1 == if window_elapsed(
                newest_event(rest, first),
                t.debouncer.window,
                at,
            ) {
                1nat
            } else {
                0nat
            }
        }),
{
    let b = seq![Input::Raw { at: first, target: true }] + rest;
    lemma_interleaved_burst_single_signal(t.debouncer, first, rest, at);
    lemma_publishes_match_signals(t, b);
    lemma_publishes_match_signals(t, b.push(Input::Tick { at }));
}

/// A second raw event about the watched file within the quiet window of the
/// first, even with time observed in between, makes a freshly started
/// watching task ask for exactly one read and publication once the window
/// of the later event has passed.
pub proof fn lemma_repeat_in_window_single_publish(t: WatcherTask, a: u64, x: u64, b: u64, y: u64)
    requires
        t.watching,
        is_idle(t.debouncer),
        a <= x,
        !window_elapsed(a, t.debouncer.window, x),
        x <= b,
        window_elapsed(b, t.debouncer.window, y),
    ensures
        task_run(
            t,
            seq![
                Input::Raw { at: a, target: true },
                Input::Tick { at: x },
                Input::Raw { at: b, target: true },
                Input::Tick { at: y },
            ],
        ).1 == 1,
{
    let s = seq![
        Input::Raw { at: a, target: true },
        Input::Tick { at: x },
        Input::Raw { at: b, target: true },
        Input::Tick { at: y },
    ];
    lemma_repeat_in_window_single_signal(t.debouncer, a, x, b, y);
    lemma_publishes_match_signals(t, s);
}

} // verus!
