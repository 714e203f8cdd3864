use vstd::prelude::*;

verus! {

/// One thing that reaches the debouncer: a raw file-system event observed at
/// time `at` (milliseconds of a monotonic clock), which is or is not about
/// the watched file, or the passing of time up to `at`.
#[derive(Clone, Copy, Debug, PartialEq, Eq, Structural)]
pub enum Input {
    Raw { at: u64, target: bool },
    Tick { at: u64 },
}

/// Coalesces bursts of raw events about one file into single change signals.
/// `last_event` is the time of the newest raw event of the burst still
/// waiting for its quiet window to elapse, if a burst is pending.
#[derive(Clone, Copy, Debug, PartialEq, Eq, Structural)]
pub struct Debouncer {
    pub window: u64,
    pub last_event: Option<u64>,
}

/// Whether a debouncer has no pending burst.
pub open spec fn is_idle(d: Debouncer) -> bool {
    d.last_event is None
}

/// Whether time `at` lies at or past the end of the quiet window that began
/// with the raw event at `last`.
pub open spec fn window_elapsed(last: u64, window: u64, at: u64) -> bool {
    at as int >= last as int + window as int
}

/// The debouncer after one input, and whether that input closes a burst with
/// a change signal. An event about the watched file starts or extends the
/// pending burst; other events change nothing. Time closes the pending burst
/// once the window has passed with no newer event.
pub open spec fn step_spec(d: Debouncer, i: Input) -> (Debouncer, bool) {
    match i {
        Input::Raw { at, target } => {
            if target {
                (Debouncer { last_event: Some(at), ..d }, false)
            } else {
                (d, false)
            }
        },
        Input::Tick { at } => {
            match d.last_event {
                Some(last) => {
                    if window_elapsed(last, d.window, at) {
                        (Debouncer { last_event: None, ..d }, true)
                    } else {
                        (d, false)
                    }
                },
                None => (d, false),
            }
        },
    }
}

/// The debouncer after a sequence of inputs, and how many change signals it
/// raised on the way.
pub open spec fn run(d: Debouncer, inputs: Seq<Input>) -> (Debouncer, nat)
    decreases inputs.len(),
{
    if inputs.len() == 0 {
        (d, 0)
    } else {
        let (d1, s) = step_spec(d, inputs[0]);
        let (d2, n) = run(d1, inputs.drop_first());
        (d2, n + if s { 1nat } else { 0nat })
    }
}

/// The raw events about the watched file at the given times, in order.
pub open spec fn burst(times: Seq<u64>) -> Seq<Input> {
    Seq::new(times.len(), |k: int| Input::Raw { at: times[k], target: true })
}

/// The time at which the pending burst's window closes, capped at the
/// largest representable time.
pub open spec fn deadline_spec(d: Debouncer) -> Option<u64> {
    match d.last_event {
        Some(last) => Some(
            if last as int + d.window as int > u64::MAX as int {
                u64::MAX
            } else {
                (last + d.window) as u64
            },
        ),
        None => None,
    }
}

/// Running two input sequences one after the other is running their
/// concatenation: states chain and signal counts add up.
pub proof fn lemma_run_append(d: Debouncer, a: Seq<Input>, b: Seq<Input>)
    ensures
        run(d, a + b) == (run(run(d, a).0, b).0, run(d, a).1 + run(run(d, a).0, b).1),
    decreases a.len(),
{
    if a.len() == 0 {
        assert(a + b =~= b);
    } else {
        let d1 = step_spec(d, a[0]).0;
        assert((a + b).drop_first() =~= a.drop_first() + b);
        lemma_run_append(d1, a.drop_first(), b);
    }
}

/// A burst of raw events about the watched file raises no signal by itself
/// and leaves its newest event pending.
pub proof fn lemma_run_burst(d: Debouncer, times: Seq<u64>)
    requires
        times.len() > 0,
    ensures
        run(d, burst(times)) == (Debouncer { last_event: Some(times.last()), ..d }, 0nat),
    decreases times.len(),
{
    let d1 = Debouncer { last_event: Some(times[0]), ..d };
    assert(burst(times).drop_first() =~= burst(times.drop_first()));
    assert(burst(times)[0] == Input::Raw { at: times[0], target: true });
    assert(step_spec(d, burst(times)[0]) == (d1, false));
    if times.len() > 1 {
        lemma_run_burst(d1, times.drop_first());
        assert(times.drop_first().last() == times.last());
    } else {
        assert(burst(times).drop_first() =~= Seq::<Input>::empty());
        assert(run(d1, burst(times).drop_first()) == (d1, 0nat));
    }
}

/// One raw event about the watched file, or any number of them, delivered to
/// an idle debouncer with no time passing in between, raises no signal while
/// the burst lasts and then exactly one, when time reaches the end of the
/// quiet window of the burst's newest event. Time short of that raises none
/// and keeps the burst pending.
pub proof fn lemma_burst_single_signal(d: Debouncer, times: Seq<u64>, at: u64)
    requires
        is_idle(d),
        times.len() > 0,
    ensures
        run(d, burst(times)).1 == 0,
        run(d, burst(times).push(Input::Tick { at })).1 == if window_elapsed(
            times.last(),
            d.window,
            at,
        ) {
            1nat
        } else {
            0nat
        },
        is_idle(run(d, burst(times).push(Input::Tick { at })).0) == window_elapsed(
            times.last(),
            d.window,
            at,
        ),
{
    let tick = seq![Input::Tick { at }];
    lemma_run_burst(d, times);
    lemma_run_append(d, burst(times), tick);
    assert(burst(times).push(Input::Tick { at }) =~= burst(times) + tick);
    let d1 = run(d, burst(times)).0;
    assert(tick.drop_first() =~= Seq::<Input>::empty());
    let (d2, sig) = step_spec(d1, tick[0]);
    assert(run(d2, tick.drop_first()) == (d2, 0nat));
    assert(run(d1, tick) == (d2, if sig { 1nat } else { 0nat }));
}

/// Running four inputs is stepping through them one by one.
proof fn lemma_run_four(d: Debouncer, s: Seq<Input>)
    requires
        s.len() == 4,
    ensures
        ({
            let (d1, s1) = step_spec(d, s[0]);
            let (d2, s2) = step_spec(d1, s[1]);
            let (d3, s3) = step_spec(d2, s[2]);
            let (d4, s4) = step_spec(d3, s[3]);
            run(d, s) == (d4, (if s1 { 1nat } else { 0nat }) + (if s2 { 1nat } else { 0nat }) + (
            if s3 { 1nat } else { 0nat }) + (if s4 { 1nat } else { 0nat }))
        }),
{
    let (d1, s1) = step_spec(d, s[0]);
    let (d2, s2) = step_spec(d1, s[1]);
    let (d3, s3) = step_spec(d2, s[2]);
    let (d4, s4) = step_spec(d3, s[3]);
    let q1 = s.drop_first();
    let q2 = q1.drop_first();
    let q3 = q2.drop_first();
    let q4 = q3.drop_first();
    assert(q4.len() == 0);
    assert(run(d4, q4) == (d4, 0nat));
    assert(run(d3, q3) == (d4, (if s4 { 1nat } else { 0nat })));
    assert(run(d2, q2) == (d4, (if s3 { 1nat } else { 0nat }) + (if s4 { 1nat } else { 0nat })));
    assert(run(d1, q1) == (d4, (if s2 { 1nat } else { 0nat }) + (if s3 { 1nat } else { 0nat }) + (
    if s4 { 1nat } else { 0nat })));
}

/// Two edits of the watched file whose raw events are separated by more
/// than the quiet window, with time observed in the gap and after the second
/// edit's window, raise exactly two change signals.
pub proof fn lemma_separate_edits_two_signals(d: Debouncer, a: u64, x: u64, b: u64, y: u64)
    requires
        is_idle(d),
        window_elapsed(a, d.window, x),
        x <= b,
        window_elapsed(b, d.window, y),
    ensures
        run(
            d,
            seq![
                Input::Raw { at: a, target: true },
                Input::Tick { at: x },
                Input::Raw { at: b, target: true },
                Input::Tick { at: y },
            ],
        ).1 == 2,
{
    let s = seq![
        Input::Raw { at: a, target: true },
        Input::Tick { at: x },
        Input::Raw { at: b, target: true },
        Input::Tick { at: y },
    ];
    lemma_run_four(d, s);
}

/// A second raw event about the watched file within the quiet window of the
/// first (a spurious metadata update, say), even with time observed in
/// between, does not raise a second signal: the pair yields exactly one
/// once the window of the later event has passed.
pub proof fn lemma_repeat_in_window_single_signal(d: Debouncer, a: u64, x: u64, b: u64, y: u64)
    requires
        is_idle(d),
        a <= x,
        !window_elapsed(a, d.window, x),
        x <= b,
        window_elapsed(b, d.window, y),
    ensures
        run(
            d,
            seq![
                Input::Raw { at: a, target: true },
                Input::Tick { at: x },
                Input::Raw { at: b, target: true },
                Input::Tick { at: y },
            ],
        ).1 == 1,
{
    let s = seq![
        Input::Raw { at: a, target: true },
        Input::Tick { at: x },
        Input::Raw { at: b, target: true },
        Input::Tick { at: y },
    ];
    lemma_run_four(d, s);
}

/// Whether `inputs` only extend a burst whose newest event came at `last`:
/// each is a raw event (about the watched file or not) or time that comes
/// before the quiet window of the newest event about the watched file closes.
pub open spec fn extends_burst(inputs: Seq<Input>, window: u64, last: u64) -> bool
    decreases inputs.len(),
{
    if inputs.len() == 0 {
        true
    } else {
        match inputs[0] {
            Input::Raw { at, target } => extends_burst(
                inputs.drop_first(),
                window,
                if target {
                    at
                } else {
                    last
                },
            ),
            Input::Tick { at } => !window_elapsed(last, window, at) && extends_burst(
                inputs.drop_first(),
                window,
                last,
            ),
        }
    }
}

/// The time of the newest raw event about the watched file once `inputs`
/// have been seen, starting from a burst whose newest event came at `last`.
pub open spec fn newest_event(inputs: Seq<Input>, last: u64) -> u64
    decreases inputs.len(),
{
    if inputs.len() == 0 {
        last
    } else {
        match inputs[0] {
            Input::Raw { at, target } => newest_event(
                inputs.drop_first(),
                if target {
                    at
                } else {
                    last
                },
            ),
            Input::Tick { .. } => newest_event(inputs.drop_first(), last),
        }
    }
}

/// While inputs only extend a pending burst, no signal is raised and the
/// burst stays pending with its newest event.
pub proof fn lemma_extending_burst_is_silent(d: Debouncer, last: u64, inputs: Seq<Input>)
    requires
        d.last_event == Some(last),
        extends_burst(inputs, d.window, last),
    ensures
        run(d, inputs) == (Debouncer { last_event: Some(newest_event(inputs, last)), ..d }, 0nat),
    decreases inputs.len(),
{
    if inputs.len() > 0 {
        match inputs[0] {
            Input::Raw { at, target } => {
                let l1 = if target {
                    at
                } else {
                    last
                };
                lemma_extending_burst_is_silent(
                    Debouncer { last_event: Some(l1), ..d },
                    l1,
                    inputs.drop_first(),
                );
            },
            Input::Tick { .. } => {
                lemma_extending_burst_is_silent(d, last, inputs.drop_first());
            },
        }
    }
}

/// A burst that opens with a raw event about the watched file at `first`,
/// reaching an idle debouncer and going on with further raw events and with
/// time that comes before the window of its newest event closes, raises no
/// signal while it lasts. Time that then comes raises exactly one signal if
/// it reaches the end of the newest event's window, and none otherwise.
pub proof fn lemma_interleaved_burst_single_signal(
    d: Debouncer,
    first: u64,
    rest: Seq<Input>,
    at: u64,
)
    requires
        is_idle(d),
        extends_burst(rest, d.window, first),
    ensures
        ({
            let b = seq![Input::Raw { at: first, target: true }] + rest;
            &&& run(d, b).1 == 0
            &&& run(d, b.push(Input::Tick { at })).1 == if window_elapsed(
                newest_event(rest, first),
                d.window,
                at,
            ) {
                1nat
            } else {
                0nat
            }
        }),
{
    let head = seq![Input::Raw { at: first, target: true }];
    let tick = seq![Input::Tick { at }];
    let b = head + rest;
    let d1 = Debouncer { last_event: Some(first), ..d };
    assert(head.drop_first() =~= Seq::<Input>::empty());
    assert(run(d1, head.drop_first()) == (d1, 0nat));
    assert(run(d, head) == (d1, 0nat));
    lemma_run_append(d, head, rest);
    lemma_extending_burst_is_silent(d1, first, rest);
    let d2 = run(d, b).0;
    lemma_run_append(d, b, tick);
    assert(b.push(Input::Tick { at }) =~= b + tick);
    assert(tick.drop_first() =~= Seq::<Input>::empty());
    let (d3, sig) = step_spec(d2, tick[0]);
    assert(run(d3, tick.drop_first()) == (d3, 0nat));
    assert(run(d2, tick) == (d3, if sig { 1nat } else { 0nat }));
}

impl Debouncer {
    /// A debouncer with the given quiet window and no pending burst.
    pub fn new(window: u64) -> (r: Debouncer)
        ensures
            r.window == window,
            is_idle(r),
    {
        Debouncer { window, last_event: None }
    }

    /// Feeds one input to the debouncer; returns whether it raised a change
    /// signal. A signal comes only from the passing of time, at or after the
    /// end of the window of the newest event of a pending burst.
    pub fn step(&mut self, input: Input) -> (signal: bool)
        ensures
            (*final(self), signal) == step_spec(*old(self), input),
            signal ==> (input is Tick && old(self).last_event is Some && window_elapsed(
                old(self).last_event->Some_0,
                old(self).window,
                input->Tick_at,
            )),
    {
        match input {
            Input::Raw { at, target } => {
                if target {
                    self.last_event = Some(at);
                }
                false
            },
            Input::Tick { at } => {
                match self.last_event {
                    Some(last) => {
                        if at >= last && at - last >= self.window {
                            self.last_event = None;
                            true
                        } else {
                            false
                        }
                    },
                    None => false,
                }
            },
        }
    }

    /// When the pending burst's window closes, so that the caller knows how
    /// long it may wait for the next raw event; `None` when idle.
    pub fn deadline(&self) -> (r: Option<u64>)
        ensures
            r == deadline_spec(*self),
    {
        match self.last_event {
            Some(last) => Some(last.saturating_add(self.window)),
            None => None,
        }
    }
}

/// Whether a raw event about `event_path` concerns the watched file
/// `target`: only the exact path counts, not its siblings in the watched
/// directory.
pub fn is_target(event_path: &String, target: &String) -> (r: bool)
    ensures
        r == (event_path@ == target@),
{
    event_path.eq(target)
}

} // verus!
