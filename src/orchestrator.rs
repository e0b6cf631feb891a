use crate::camera::CaptureError;
use crate::discord::NotificationOutcome;
use crate::motion::MotionEvent;
use vstd::prelude::*;

verus! {

/// Where the control loop stands.
#[derive(Debug, Clone, Copy, PartialEq, Eq, Structural)]
pub enum Phase {
    /// Waiting for the next detection event.
    Idle,
    /// A capture has been asked for.
    Capturing,
    /// A notification has been asked for.
    Notifying,
    /// The event channel closed; monitoring is over.
    Terminated,
}

/// What the control loop is told.
#[derive(Debug, Clone)]
pub enum LoopEvent {
    /// A detection arrived on the event channel.
    Motion(MotionEvent),
    /// The event channel reported that its producer is gone.
    ChannelClosed,
    /// The capture succeeded; the image is at this path.
    Captured(String),
    /// The capture failed.
    CaptureFailed(CaptureError),
    /// The notification attempt finished, either way.
    Notified(NotificationOutcome),
}

/// What the control loop asks to be done next.
#[derive(Debug, Clone)]
pub enum LoopAction {
    /// Wait on the event channel.
    WaitForEvent,
    /// Capture an image.
    Capture,
    /// Send a notification with the image at this path.
    Notify(String),
    /// Stop monitoring.
    Exit,
    /// Nothing: the event does not belong to the current phase.
    Ignore,
}

/// One transition of the control loop.
pub open spec fn transition(phase: Phase, event: LoopEvent) -> (Phase, LoopAction) {
    match phase {
        Phase::Idle => match event {
            LoopEvent::Motion(_) => (Phase::Capturing, LoopAction::Capture),
            LoopEvent::ChannelClosed => (Phase::Terminated, LoopAction::Exit),
            _ => (Phase::Idle, LoopAction::Ignore),
        },
        Phase::Capturing => match event {
            LoopEvent::Captured(path) => (Phase::Notifying, LoopAction::Notify(path)),
            LoopEvent::CaptureFailed(_) => (Phase::Idle, LoopAction::WaitForEvent),
            _ => (Phase::Capturing, LoopAction::Ignore),
        },
        Phase::Notifying => match event {
            LoopEvent::Notified(_) => (Phase::Idle, LoopAction::WaitForEvent),
            _ => (Phase::Notifying, LoopAction::Ignore),
        },
        Phase::Terminated => (Phase::Terminated, LoopAction::Ignore),
    }
}

/// The phase reached, and the actions asked for, over a run of events.
pub open spec fn run(phase: Phase, events: Seq<LoopEvent>) -> (Phase, Seq<LoopAction>)
    decreases events.len(),
{
    if events.len() == 0 {
        (phase, Seq::empty())
    } else {
        let before = run(phase, events.drop_last());
        let step = transition(before.0, events.last());
        (step.0, before.1.push(step.1))
    }
}

/// Number of capture attempts among a run's actions.
pub open spec fn captures(actions: Seq<LoopAction>) -> nat {
    actions.filter(|a: LoopAction| a is Capture).len()
}

/// Number of notification attempts among a run's actions.
pub open spec fn notifications(actions: Seq<LoopAction>) -> nat {
    actions.filter(|a: LoopAction| a is Notify).len()
}

/// The top-level control loop: sequences capture and notification for each
/// detection and tolerates failure of either.
pub struct Orchestrator {
    phase: Phase,
}

impl Orchestrator {
    pub closed spec fn phase_spec(&self) -> Phase {
        self.phase
    }

    /// A control loop waiting for its first event.
    pub fn new() -> (r: Self)
        ensures
            r.phase_spec() == Phase::Idle,
    {
        Orchestrator { phase: Phase::Idle }
    }

    pub fn phase(&self) -> (r: Phase)
        ensures
            r == self.phase_spec(),
    {
        self.phase
    }

    /// Take one event and say what to do next.
    pub fn step(&mut self, event: LoopEvent) -> (r: LoopAction)
        ensures
            (final(self).phase_spec(), r) == transition(old(self).phase_spec(), event),
    {
        let (next, action) = match self.phase {
            Phase::Idle => match event {
                LoopEvent::Motion(_) => (Phase::Capturing, LoopAction::Capture),
                LoopEvent::ChannelClosed => (Phase::Terminated, LoopAction::Exit),
                _ => (Phase::Idle, LoopAction::Ignore),
            },
            Phase::Capturing => match event {
                LoopEvent::Captured(path) => (Phase::Notifying, LoopAction::Notify(path)),
                LoopEvent::CaptureFailed(_) => (Phase::Idle, LoopAction::WaitForEvent),
                _ => (Phase::Capturing, LoopAction::Ignore),
            },
            Phase::Notifying => match event {
                LoopEvent::Notified(_) => (Phase::Idle, LoopAction::WaitForEvent),
                _ => (Phase::Notifying, LoopAction::Ignore),
            },
            Phase::Terminated => (Phase::Terminated, LoopAction::Ignore),
        };
        self.phase = next;
        action
    }
}

/// One detection whose capture succeeds gives exactly one capture attempt and
/// exactly one notification attempt, for the captured image, and the loop is
/// idle again whatever the notification's outcome.
pub proof fn lemma_detection_with_image(event: MotionEvent, path: String, outcome: NotificationOutcome)
    ensures
        ({
            let r = run(
                Phase::Idle,
                seq![LoopEvent::Motion(event), LoopEvent::Captured(path), LoopEvent::Notified(outcome)],
            );
            &&& r.0 == Phase::Idle
            &&& r.1 == seq![LoopAction::Capture, LoopAction::Notify(path), LoopAction::WaitForEvent]
            &&& captures(r.1) == 1
            &&& notifications(r.1) == 1
        }),
{
    let e1 = seq![LoopEvent::Motion(event)];
    let e2 = seq![LoopEvent::Motion(event), LoopEvent::Captured(path)];
    let es = seq![LoopEvent::Motion(event), LoopEvent::Captured(path), LoopEvent::Notified(outcome)];
    assert(e1.drop_last() =~= Seq::<LoopEvent>::empty());
    assert(e2.drop_last() =~= e1);
    assert(es.drop_last() =~= e2);
    assert(run(Phase::Idle, e1.drop_last()).1 =~= Seq::<LoopAction>::empty());
    assert(Seq::<LoopAction>::empty().push(LoopAction::Capture) =~= seq![LoopAction::Capture]);
    assert(run(Phase::Idle, e1) == (Phase::Capturing, seq![LoopAction::Capture]));
    assert(run(Phase::Idle, e2) == (Phase::Notifying, seq![LoopAction::Capture].push(LoopAction::Notify(path))));
    let acts = seq![LoopAction::Capture, LoopAction::Notify(path), LoopAction::WaitForEvent];
    assert(seq![LoopAction::Capture].push(LoopAction::Notify(path)).push(LoopAction::WaitForEvent) =~= acts);
    assert(run(Phase::Idle, es).1 =~= acts);
    reveal_with_fuel(Seq::filter, 4);
    assert(acts.drop_last().drop_last().drop_last() =~= Seq::<LoopAction>::empty());
    assert(acts.drop_last().drop_last() =~= seq![LoopAction::Capture]);
    assert(acts.drop_last() =~= seq![LoopAction::Capture, LoopAction::Notify(path)]);
}

/// One detection whose capture fails gives exactly one capture attempt and no
/// notification attempt, and the loop is idle again.
pub proof fn lemma_detection_without_image(event: MotionEvent, err: CaptureError)
    ensures
        ({
            let r = run(Phase::Idle, seq![LoopEvent::Motion(event), LoopEvent::CaptureFailed(err)]);
            &&& r.0 == Phase::Idle
            &&& r.1 == seq![LoopAction::Capture, LoopAction::WaitForEvent]
            &&& captures(r.1) == 1
            &&& notifications(r.1) == 0
        }),
{
    let e1 = seq![LoopEvent::Motion(event)];
    let es = seq![LoopEvent::Motion(event), LoopEvent::CaptureFailed(err)];
    assert(e1.drop_last() =~= Seq::<LoopEvent>::empty());
    assert(es.drop_last() =~= e1);
    assert(run(Phase::Idle, e1.drop_last()).1 =~= Seq::<LoopAction>::empty());
    assert(Seq::<LoopAction>::empty().push(LoopAction::Capture) =~= seq![LoopAction::Capture]);
    assert(run(Phase::Idle, e1) == (Phase::Capturing, seq![LoopAction::Capture]));
    let acts = seq![LoopAction::Capture, LoopAction::WaitForEvent];
    assert(seq![LoopAction::Capture].push(LoopAction::WaitForEvent) =~= acts);
    assert(run(Phase::Idle, es).1 =~= acts);
    reveal_with_fuel(Seq::filter, 3);
    assert(acts.drop_last().drop_last() =~= Seq::<LoopAction>::empty());
    assert(acts.drop_last() =~= seq![LoopAction::Capture]);
}

/// Running two runs of events one after the other is running their
/// concatenation.
pub proof fn lemma_run_concat(phase: Phase, first: Seq<LoopEvent>, second: Seq<LoopEvent>)
    ensures
        run(phase, first + second) == (
            run(run(phase, first).0, second).0,
            run(phase, first).1 + run(run(phase, first).0, second).1,
        ),
    decreases second.len(),
{
    let mid = run(phase, first).0;
    if second.len() == 0 {
        assert(first + second =~= first);
        assert(run(phase, first).1 + run(mid, second).1 =~= run(phase, first).1);
    } else {
        let pre = second.drop_last();
        lemma_run_concat(phase, first, pre);
        assert((first + second).drop_last() =~= first + pre);
        assert((first + second).last() == second.last());
        assert(run(phase, first).1 + run(mid, pre).1.push(transition(run(mid, pre).0, second.last()).1)
            =~= (run(phase, first).1 + run(mid, pre).1).push(transition(run(mid, pre).0, second.last()).1));
    }
}

/// A failed capture does not stop the loop: after a detection whose capture
/// fails, whatever events follow are handled exactly as from a fresh start,
/// so every later detection is captured again.
pub proof fn lemma_capture_failure_recovers(event: MotionEvent, err: CaptureError, rest: Seq<LoopEvent>)
    ensures
        run(Phase::Idle, seq![LoopEvent::Motion(event), LoopEvent::CaptureFailed(err)] + rest) == (
            run(Phase::Idle, rest).0,
            seq![LoopAction::Capture, LoopAction::WaitForEvent] + run(Phase::Idle, rest).1,
        ),
{
    lemma_detection_without_image(event, err);
    lemma_run_concat(Phase::Idle, seq![LoopEvent::Motion(event), LoopEvent::CaptureFailed(err)], rest);
}

/// When the event channel closes while the loop waits, the loop makes a single
/// transition to its terminal phase: whatever follows, it stays there and asks
/// for no capture and no notification.
pub proof fn lemma_channel_closed_is_terminal(rest: Seq<LoopEvent>)
    ensures
        ({
            let r = run(Phase::Idle, seq![LoopEvent::ChannelClosed] + rest);
            &&& r.0 == Phase::Terminated
            &&& r.1 == seq![LoopAction::Exit] + Seq::new(rest.len(), |i: int| LoopAction::Ignore)
            &&& captures(r.1) == 0
            &&& notifications(r.1) == 0
        }),
    decreases rest.len(),
{
    let es = seq![LoopEvent::ChannelClosed] + rest;
    let acts = seq![LoopAction::Exit] + Seq::new(rest.len(), |i: int| LoopAction::Ignore);
    if rest.len() == 0 {
        assert(es =~= seq![LoopEvent::ChannelClosed]);
        assert(es.drop_last() =~= Seq::<LoopEvent>::empty());
        assert(run(Phase::Idle, es.drop_last()).1 =~= Seq::<LoopAction>::empty());
        assert(Seq::<LoopAction>::empty().push(LoopAction::Exit) =~= acts);
        assert(run(Phase::Idle, es).1 =~= acts);
    } else {
        let pre = rest.drop_last();
        lemma_channel_closed_is_terminal(pre);
        assert(es.drop_last() =~= seq![LoopEvent::ChannelClosed] + pre);
        let pre_acts = seq![LoopAction::Exit] + Seq::new(pre.len(), |i: int| LoopAction::Ignore);
        assert(pre_acts.push(LoopAction::Ignore) =~= acts);
        assert(es.last() == rest.last());
        assert(run(Phase::Idle, es).1 =~= acts);
    }
    assert(acts.filter(|a: LoopAction| a is Capture) =~= Seq::<LoopAction>::empty()) by {
        lemma_filter_none(acts, |a: LoopAction| a is Capture);
    }
    assert(acts.filter(|a: LoopAction| a is Notify) =~= Seq::<LoopAction>::empty()) by {
        lemma_filter_none(acts, |a: LoopAction| a is Notify);
    }
}

proof fn lemma_filter_none(s: Seq<LoopAction>, pred: spec_fn(LoopAction) -> bool)
    requires
        forall|i: int| 0 <= i < s.len() ==> !pred(#[trigger] s[i]),
    ensures
        s.filter(pred).len() == 0,
    decreases s.len(),
{
    reveal(Seq::filter);
    if s.len() > 0 {
        lemma_filter_none(s.drop_last(), pred);
    }
}

} // verus!
