use vstd::prelude::*;

verus! {

/// The progress reporter's counter: a monotonic count of completed pixels
/// against a fixed expectation, with a periodic milestone every time the
/// completed fraction crosses an exact tenth.
#[derive(Clone, Copy, PartialEq, Eq, Structural, Debug)]
pub struct ProgressTracker {
    pub expected: u64,
    pub done: u64,
}

impl ProgressTracker {
    pub open spec fn wf(self) -> bool {
        self.expected > 0 && self.done <= self.expected
    }

    /// Every expected completion signal has been counted.
    pub open spec fn is_complete(self) -> bool {
        self.done == self.expected
    }

    /// The completed percentage, rounded down; at most 100.
    pub open spec fn spec_percent(self) -> u64 {
        ((100 * self.done as int) / self.expected as int) as u64
    }

    /// The count sits on a milestone when the completed fraction is an exact
    /// multiple of one tenth: `done / expected` is `k / 10` for an integer `k`.
    pub open spec fn spec_is_milestone(self) -> bool {
        (10 * self.done as int) % self.expected as int == 0
    }

    /// The counter state after `k` completion signals have been counted.
    pub open spec fn after_signals(expected: u64, k: nat) -> ProgressTracker
        decreases k,
    {
        if k == 0 {
            ProgressTracker { expected, done: 0 }
        } else {
            ProgressTracker::after_signals(expected, (k - 1) as nat).record_spec()
        }
    }

    /// The state after one more counted signal.
    pub open spec fn record_spec(self) -> ProgressTracker {
        ProgressTracker { expected: self.expected, done: (self.done + 1) as u64 }
    }

    /// Starts a reporter that expects `expected` completion signals.
    pub fn new(expected: u64) -> (t: ProgressTracker)
        requires
            expected > 0,
        ensures
            t == (ProgressTracker { expected, done: 0 }),
            t.wf(),
    {
        ProgressTracker { expected, done: 0 }
    }

    /// Counts one completion signal; reports the completed percentage exactly
    /// when the new count sits on a milestone.
    pub fn record(&mut self) -> (milestone: Option<u64>)
        requires
            old(self).wf(),
            !old(self).is_complete(),
        ensures
            *final(self) == old(self).record_spec(),
            final(self).wf(),
            milestone matches Some(p) <==> final(self).spec_is_milestone(),
            milestone matches Some(p) ==> p == final(self).spec_percent(),
    {
        self.done = self.done + 1;
        let hits: u128 = 10 * self.done as u128;
        if hits % self.expected as u128 == 0 {
            let percent: u128 = (100 * self.done as u128) / self.expected as u128;
            Some(percent as u64)
        } else {
            None
        }
    }

    /// Whether every expected signal has been counted.
    pub fn complete(&self) -> (b: bool)
        ensures
            b == self.is_complete(),
    {
        self.done == self.expected
    }
}

/// The milestone percentages reported while counting signals 1 through `k`,
/// in order.
pub open spec fn milestones_upto(expected: u64, k: nat) -> Seq<u64>
    decreases k,
{
    if k == 0 {
        Seq::empty()
    } else {
        let t = ProgressTracker { expected, done: k as u64 };
        let rest = milestones_upto(expected, (k - 1) as nat);
        if t.spec_is_milestone() {
            rest.push(t.spec_percent())
        } else {
            rest
        }
    }
}

#[verifier::external_type_specification]
#[verifier::external_body]
#[verifier::reject_recursive_types(T)]
pub struct ExSender<T>(std::sync::mpsc::Sender<T>);

#[verifier::external_type_specification]
#[verifier::external_body]
#[verifier::reject_recursive_types(T)]
pub struct ExReceiver<T>(std::sync::mpsc::Receiver<T>);

/// Relies on std::sync::mpsc::channel: yields a connected sender/receiver
/// pair over which the engine's workers queue one completion signal per pixel.
#[verifier::external_body]
pub(crate) fn signal_channel() -> (std::sync::mpsc::Sender<()>, std::sync::mpsc::Receiver<()>) {
    std::sync::mpsc::channel()
}

/// Relies on std::sync::mpsc::Sender::send: queues one completion signal.
/// The result only reports whether the receiver is still connected, which the
/// engine does not act on, so it is discarded.
#[verifier::external_body]
pub(crate) fn send_signal(tx: &std::sync::mpsc::Sender<()>) {
    let _ = tx.send(());
}

/// Relies on std::sync::mpsc::Receiver::try_recv: dequeues one buffered
/// completion signal if one is pending; the result tells whether one was
/// dequeued, and holds of that dequeuing alone.
#[verifier::external_body]
pub(crate) fn try_recv_signal(rx: &std::sync::mpsc::Receiver<()>) -> (got: bool) {
    rx.try_recv().is_ok()
}

/// The progress listener: counts pending completion signals until the
/// expectation is met or no signal is pending, collecting the milestone
/// percentage of every signal that lands on an exact tenth of the
/// expectation. Terminates after consuming at most `expected` signals.
pub fn listen(rx: &std::sync::mpsc::Receiver<()>, expected: u64) -> (r: (ProgressTracker, Vec<u64>))
    requires
        expected > 0,
    ensures
        r.0.wf(),
        r.0.expected == expected,
        r.0 == ProgressTracker::after_signals(expected, r.0.done as nat),
        r.1@ == milestones_upto(expected, r.0.done as nat),
{
    let mut tracker = ProgressTracker::new(expected);
    let mut milestones: Vec<u64> = Vec::new();
    while tracker.done < tracker.expected
        invariant
            tracker.wf(),
            tracker.expected == expected,
            tracker == ProgressTracker::after_signals(expected, tracker.done as nat),
            milestones@ == milestones_upto(expected, tracker.done as nat),
        decreases expected - tracker.done,
    {
        if !try_recv_signal(rx) {
            break ;
        }
        let milestone = tracker.record();
        if let Some(percent) = milestone {
            milestones.push(percent);
        }
    }
    (tracker, milestones)
}

/// A reporter that counts exactly its expectation of completion signals, and
/// no fewer, reports completion — and never before the last signal; this is
/// what ends the listener's wait.
pub proof fn lemma_completion_after_signals(expected: u64, k: nat)
    requires
        expected > 0,
        k <= expected,
    ensures
        ProgressTracker::after_signals(expected, k).expected == expected,
        ProgressTracker::after_signals(expected, k).done == k,
        ProgressTracker::after_signals(expected, k).is_complete() <==> k == expected,
    decreases k,
{
    if k > 0 {
        lemma_completion_after_signals(expected, (k - 1) as nat);
    }
}

/// The last expected signal always lands on a milestone, and the milestone
/// it reports is exactly one hundred percent.
pub proof fn lemma_final_signal_reports_completion(expected: u64)
    requires
        expected > 0,
    ensures
        (ProgressTracker { expected, done: expected }).spec_is_milestone(),
        (ProgressTracker { expected, done: expected }).spec_percent() == 100,
{
    assert((10 * expected as int) % expected as int == 0) by (nonlinear_arith)
        requires
            expected > 0,
    ;
    assert((100 * expected as int) / expected as int == 100) by (nonlinear_arith)
        requires
            expected > 0,
    ;
}

} // verus!
