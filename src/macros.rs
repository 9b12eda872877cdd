use vstd::prelude::*;
use crate::action::{KeyAction, MacroAction, MacroMetadata, MouseButtonAction, MouseMoveAction, UserAction};
use crate::guard::MacroGuard;

verus! {

/// One event delivered by the capture layer while a recording runs.
#[derive(Debug, Clone)]
pub enum CaptureEvent {
    KeyDown(String),
    KeyUp(String),
    ButtonDown(usize),
    ButtonUp(usize),
    /// The pointer's new absolute position.
    Move(i32, i32),
}

/// The action that an event appends to the log, given the pointer
/// position last seen; and the pointer position seen after it.
pub open spec fn action_of(event: CaptureEvent, last: (i32, i32)) -> (UserAction, (i32, i32)) {
    match event {
        CaptureEvent::KeyDown(k) => (UserAction::Key(KeyAction { key: k, pressed: true }), last),
        CaptureEvent::KeyUp(k) => (UserAction::Key(KeyAction { key: k, pressed: false }), last),
        CaptureEvent::ButtonDown(b) => (
            UserAction::MouseButton(MouseButtonAction { button: b, pressed: true }),
            last,
        ),
        CaptureEvent::ButtonUp(b) => (
            UserAction::MouseButton(MouseButtonAction { button: b, pressed: false }),
            last,
        ),
        CaptureEvent::Move(x, y) => (
            UserAction::MouseMove(
                MouseMoveAction {
                    delta_x: x.wrapping_sub(last.0),
                    delta_y: y.wrapping_sub(last.1),
                },
            ),
            (x, y),
        ),
    }
}

/// The log and last pointer position after one event arrives at `offset`.
pub open spec fn after_event(
    log: Seq<MacroAction>,
    last: (i32, i32),
    event: CaptureEvent,
    offset: u64,
) -> (Seq<MacroAction>, (i32, i32)) {
    let (action, next) = action_of(event, last);
    (log.push(MacroAction { action, offset }), next)
}

/// The log and last pointer position after a whole series of events,
/// each with its arrival offset, delivered in order.
pub open spec fn after_events(
    log: Seq<MacroAction>,
    last: (i32, i32),
    events: Seq<(CaptureEvent, u64)>,
) -> (Seq<MacroAction>, (i32, i32))
    decreases events.len(),
{
    if events.len() == 0 {
        (log, last)
    } else {
        let (l, p) = after_events(log, last, events.drop_last());
        after_event(l, p, events.last().0, events.last().1)
    }
}

/// Whether `action` is what the capture of `event` logs: the same key or
/// button with the same transition, or a movement for a pointer sample.
pub open spec fn records(action: UserAction, event: CaptureEvent) -> bool {
    match event {
        CaptureEvent::KeyDown(k) => action == UserAction::Key(KeyAction { key: k, pressed: true }),
        CaptureEvent::KeyUp(k) => action == UserAction::Key(KeyAction { key: k, pressed: false }),
        CaptureEvent::ButtonDown(b) => action == UserAction::MouseButton(
            MouseButtonAction { button: b, pressed: true },
        ),
        CaptureEvent::ButtonUp(b) => action == UserAction::MouseButton(
            MouseButtonAction { button: b, pressed: false },
        ),
        CaptureEvent::Move(_, _) => action is MouseMove,
    }
}

/// Capturing a series of events keeps the log it started from and
/// appends exactly one action per event, in arrival order: the action at
/// position `log.len() + i` records event `i` and carries its offset.
pub proof fn lemma_capture_appends_in_order(
    log: Seq<MacroAction>,
    last: (i32, i32),
    events: Seq<(CaptureEvent, u64)>,
)
    ensures
        after_events(log, last, events).0.len() == log.len() + events.len(),
        after_events(log, last, events).0.take(log.len() as int) == log,
        forall|i: int|
            0 <= i < events.len() ==> {
                let a = #[trigger] after_events(log, last, events).0[log.len() + i];
                a.offset == events[i].1 && records(a.action, events[i].0)
            },
    decreases events.len(),
{
    if events.len() > 0 {
        let prev = events.drop_last();
        lemma_capture_appends_in_order(log, last, prev);
        let (l, p) = after_events(log, last, prev);
        let r = after_events(log, last, events).0;
        assert(r == l.push(MacroAction { action: action_of(events.last().0, p).0, offset: events.last().1 }));
        assert(r.take(log.len() as int) =~= l.take(log.len() as int));
        assert forall|i: int| 0 <= i < events.len() implies {
            let a = #[trigger] after_events(log, last, events).0[log.len() + i];
            a.offset == events[i].1 && records(a.action, events[i].0)
        } by {
            if i < events.len() - 1 {
                assert(r[log.len() + i] == l[log.len() + i]);
                assert(prev[i] == events[i]);
            }
        }
    }
}

/// The largest offset in a log, 0 for an empty one.
pub open spec fn max_offset(log: Seq<MacroAction>) -> u64
    decreases log.len(),
{
    if log.len() == 0 {
        0
    } else {
        let m = max_offset(log.drop_last());
        if log.last().offset > m {
            log.last().offset
        } else {
            m
        }
    }
}

/// Every offset of a log is at most its largest offset.
pub proof fn lemma_max_offset_bounds(log: Seq<MacroAction>)
    ensures
        forall|i: int| 0 <= i < log.len() ==> #[trigger] log[i].offset <= max_offset(log),
    decreases log.len(),
{
    if log.len() > 0 {
        lemma_max_offset_bounds(log.drop_last());
        assert forall|i: int| 0 <= i < log.len() implies #[trigger] log[i].offset <= max_offset(
            log,
        ) by {
            if i < log.len() - 1 {
                assert(log[i] == log.drop_last()[i]);
            }
        }
    }
}

/// A recorder of user actions.
///
/// It holds the action log of the current or last recording, the
/// recording's metadata, whether a recording is running, and the pointer
/// position last seen, from which movements are measured.
#[derive(Debug)]
pub struct Macro {
    actions: Vec<MacroAction>,
    metadata: MacroMetadata,
    recording: bool,
    last_pos: (i32, i32),
}

impl Macro {
    /// The action log.
    pub closed spec fn log(&self) -> Seq<MacroAction> {
        self.actions@
    }

    /// The recording's metadata.
    pub closed spec fn meta(&self) -> MacroMetadata {
        self.metadata
    }

    /// Whether a recording is running.
    pub closed spec fn recording(&self) -> bool {
        self.recording
    }

    /// The absolute pointer position last seen.
    pub closed spec fn last(&self) -> (i32, i32) {
        self.last_pos
    }

    /// An idle recorder with an empty log.
    pub fn new() -> (r: Self)
        ensures
            r.log() == Seq::<MacroAction>::empty(),
            r.meta().end == 0,
            r.meta().cursor_pos == (0i32, 0i32),
            !r.recording(),
            r.last() == (0i32, 0i32),
    {
        Macro {
            actions: Vec::new(),
            metadata: MacroMetadata::empty(),
            recording: false,
            last_pos: (0, 0),
        }
    }

    /// A recorder that holds a persisted log and metadata, idle.
    pub fn from_parts(actions: Vec<MacroAction>, metadata: MacroMetadata) -> (r: Self)
        ensures
            r.log() == actions@,
            r.meta() == metadata,
            !r.recording(),
            r.last() == (0i32, 0i32),
    {
        Macro { actions, metadata, recording: false, last_pos: (0, 0) }
    }

    /// Starts a recording from the pointer position `cursor`, sampled now.
    ///
    /// The log is emptied, the metadata takes `cursor` as the starting
    /// position, and movements are measured from it. The returned guard is
    /// where the capture layer's registration tokens are kept.
    pub fn record(&mut self, cursor: (i32, i32)) -> (r: MacroGuard)
        ensures
            final(self).recording(),
            final(self).log() == Seq::<MacroAction>::empty(),
            final(self).meta().cursor_pos == cursor,
            final(self).meta().end == old(self).meta().end,
            final(self).last() == cursor,
            r.tokens().len() == 0,
    {
        self.recording = true;
        self.actions.clear();
        self.metadata.cursor_pos = cursor;
        self.last_pos = cursor;
        MacroGuard::new()
    }

    /// Appends the action for one captured event that arrived `offset`
    /// milliseconds after the recording began. A movement is logged as the
    /// difference from the pointer position last seen, which it replaces.
    pub fn on_event(&mut self, event: CaptureEvent, offset: u64)
        ensures
            (final(self).log(), final(self).last()) == after_event(
                old(self).log(),
                old(self).last(),
                event,
                offset,
            ),
            final(self).meta() == old(self).meta(),
            final(self).recording() == old(self).recording(),
    {
        let action = match event {
            CaptureEvent::KeyDown(key) => UserAction::Key(KeyAction { key, pressed: true }),
            CaptureEvent::KeyUp(key) => UserAction::Key(KeyAction { key, pressed: false }),
            CaptureEvent::ButtonDown(button) => UserAction::MouseButton(
                MouseButtonAction { button, pressed: true },
            ),
            CaptureEvent::ButtonUp(button) => UserAction::MouseButton(
                MouseButtonAction { button, pressed: false },
            ),
            CaptureEvent::Move(x, y) => {
                let delta_x = x.wrapping_sub(self.last_pos.0);
                let delta_y = y.wrapping_sub(self.last_pos.1);
                self.last_pos = (x, y);
                UserAction::MouseMove(MouseMoveAction { delta_x, delta_y })
            },
        };
        self.actions.push(MacroAction { action, offset });
    }

    /// Feeds a series of captured events, each with its arrival offset,
    /// through `on_event` in order. By `lemma_capture_appends_in_order`,
    /// the log grows by one action per event, in arrival order.
    pub fn capture_all(&mut self, events: Vec<(CaptureEvent, u64)>)
        ensures
            (final(self).log(), final(self).last()) == after_events(
                old(self).log(),
                old(self).last(),
                events@,
            ),
            final(self).log().len() == old(self).log().len() + events@.len(),
            final(self).meta() == old(self).meta(),
            final(self).recording() == old(self).recording(),
    {
        let ghost all = events@;
        let n: usize = events.len();
        let mut rest = events;
        let mut k: usize = 0;
        while rest.len() > 0
            invariant
                k + rest@.len() == all.len(),
                all.len() == n,
                rest@ == all.skip(k as int),
                (self.log(), self.last()) == after_events(old(self).log(), old(self).last(), all.take(k as int)),
                self.meta() == old(self).meta(),
                self.recording() == old(self).recording(),
            decreases rest@.len(),
        {
            let (event, offset) = rest.remove(0);
            assert(all.take(k as int + 1).drop_last() =~= all.take(k as int));
            assert(all[k as int] == (event, offset));
            self.on_event(event, offset);
            assert(rest@ =~= all.skip(k as int + 1));
            k = k + 1;
        }
        assert(all.take(k as int) =~= all);
        proof {
            lemma_capture_appends_in_order(old(self).log(), old(self).last(), all);
        }
    }

    /// Ends the recording `elapsed` milliseconds after it began.
    ///
    /// The end of the recording is `elapsed`, raised where needed to the
    /// largest offset in the log, so that no action lies past the end.
    pub fn stop_recording(&mut self, elapsed: u64)
        ensures
            !final(self).recording(),
            final(self).log() == old(self).log(),
            final(self).last() == old(self).last(),
            final(self).meta().cursor_pos == old(self).meta().cursor_pos,
            final(self).meta().end == (if elapsed >= max_offset(old(self).log()) {
                elapsed
            } else {
                max_offset(old(self).log())
            }),
            final(self).meta().end >= elapsed,
            forall|i: int|
                0 <= i < final(self).log().len() ==> #[trigger] final(self).log()[i].offset
                    <= final(self).meta().end,
    {
        self.recording = false;
        let mut end: u64 = elapsed;
        let mut i: usize = 0;
        while i < self.actions.len()
            invariant
                0 <= i <= self.actions@.len(),
                end == (if elapsed >= max_offset(self.actions@.take(i as int)) {
                    elapsed
                } else {
                    max_offset(self.actions@.take(i as int))
                }),
            decreases self.actions@.len() - i,
        {
            assert(self.actions@.take(i as int + 1).drop_last() == self.actions@.take(i as int));
            if self.actions[i].offset > end {
                end = self.actions[i].offset;
            }
            i = i + 1;
        }
        assert(self.actions@.take(i as int) == self.actions@);
        proof {
            lemma_max_offset_bounds(self.actions@);
        }
        self.metadata.end = end;
    }

    /// Whether a recording is running.
    pub fn is_recording(&self) -> (r: bool)
        ensures
            r == self.recording(),
    {
        self.recording
    }

    /// The action log.
    pub fn actions(&self) -> (r: &Vec<MacroAction>)
        ensures
            r@ == self.log(),
    {
        &self.actions
    }

    /// Gives up the recorder for its action log.
    pub fn into_actions(self) -> (r: Vec<MacroAction>)
        ensures
            r@ == self.log(),
    {
        self.actions
    }

    /// The recording's metadata.
    pub fn metadata(&self) -> (r: MacroMetadata)
        ensures
            r == self.meta(),
    {
        self.metadata
    }
}

} // verus!
