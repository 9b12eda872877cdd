use vstd::prelude::*;
use crate::action::{MacroAction, UserAction};
use crate::keys::{remap, spec_remap, SimKey};
use crate::macros::Macro;

verus! {

/// A pointer button as the input simulator takes it.
#[derive(Debug, Clone, Copy, PartialEq, Eq, Structural)]
pub enum Button {
    Left,
    Right,
    Middle,
    Back,
    Forward,
}

/// One call to make on the input simulator.
#[derive(Debug, Clone, Copy, PartialEq, Eq, Structural)]
pub enum Command {
    /// Move the pointer to an absolute position.
    MoveTo { x: i32, y: i32 },
    /// Move the pointer by a difference from where it is.
    MoveBy { dx: i32, dy: i32 },
    /// Press (`true`) or release a button.
    Press { button: Button, pressed: bool },
    /// Press (`true`) or release a key.
    Key { key: SimKey, pressed: bool },
    /// Nothing to simulate: the recorded button number has no simulator
    /// button. The action is skipped and the number is reported.
    UnknownButton { number: usize },
}

/// The simulator button for a captured button number, if it has one.
pub open spec fn spec_button_for(button: usize) -> Option<Button> {
    if button == 1 {
        Some(Button::Left)
    } else if button == 2 {
        Some(Button::Right)
    } else if button == 3 {
        Some(Button::Middle)
    } else if button == 4 {
        Some(Button::Back)
    } else if button == 5 {
        Some(Button::Forward)
    } else {
        None
    }
}

/// The simulator button for a captured button number: 1 left, 2 right,
/// 3 middle, 4 back, 5 forward; `None` for any other number.
pub fn button_for(button: usize) -> (r: Option<Button>)
    ensures
        r == spec_button_for(button),
{
    match button {
        1 => Some(Button::Left),
        2 => Some(Button::Right),
        3 => Some(Button::Middle),
        4 => Some(Button::Back),
        5 => Some(Button::Forward),
        _ => None,
    }
}

/// What replaying an action asks for: a simulator call, the report of an
/// unknown button, or `None` where its key has no counterpart in the
/// simulator and the action is skipped silently.
pub open spec fn spec_command(action: UserAction) -> Option<Command> {
    match action {
        UserAction::MouseMove(m) => Some(Command::MoveBy { dx: m.delta_x, dy: m.delta_y }),
        UserAction::MouseButton(b) => match spec_button_for(b.button) {
            Some(button) => Some(Command::Press { button, pressed: b.pressed }),
            None => Some(Command::UnknownButton { number: b.button }),
        },
        UserAction::Key(k) => match spec_remap(k.key@) {
            Some(key) => Some(Command::Key { key, pressed: k.pressed }),
            None => None,
        },
    }
}

/// What replaying an action asks for, if anything.
pub fn command_for(action: &UserAction) -> (r: Option<Command>)
    ensures
        r == spec_command(*action),
{
    match action {
        UserAction::MouseMove(m) => Some(Command::MoveBy { dx: m.delta_x, dy: m.delta_y }),
        UserAction::MouseButton(b) => match button_for(b.button) {
            Some(button) => Some(Command::Press { button, pressed: b.pressed }),
            None => Some(Command::UnknownButton { number: b.button }),
        },
        UserAction::Key(k) => match remap(&k.key) {
            Some(key) => Some(Command::Key { key, pressed: k.pressed }),
            None => None,
        },
    }
}

/// Whether an offset lies in the window `[from, to)`.
pub open spec fn in_window(offset: u64, from: u64, to: u64) -> bool {
    from <= offset && offset < to
}

/// The commands for the actions of `log` whose offsets lie in
/// `[from, to)`, in log order, leaving out the actions that are skipped.
pub open spec fn commands_in(log: Seq<MacroAction>, from: u64, to: u64) -> Seq<Command>
    decreases log.len(),
{
    if log.len() == 0 {
        Seq::empty()
    } else {
        let prev = commands_in(log.drop_last(), from, to);
        let a = log.last();
        if in_window(a.offset, from, to) && spec_command(a.action) is Some {
            prev.push(spec_command(a.action)->Some_0)
        } else {
            prev
        }
    }
}

/// The replay of a log is the replay of its front followed by the replay
/// of its back: what is dispatched for the later actions does not depend
/// on the earlier ones, whether they were dispatched, reported or skipped.
pub proof fn lemma_commands_concat(front: Seq<MacroAction>, back: Seq<MacroAction>, from: u64, to: u64)
    ensures
        commands_in(front + back, from, to) == commands_in(front, from, to) + commands_in(
            back,
            from,
            to,
        ),
    decreases back.len(),
{
    if back.len() == 0 {
        assert(front + back =~= front);
        assert(commands_in(front, from, to) + commands_in(back, from, to) =~= commands_in(
            front,
            from,
            to,
        ));
    } else {
        lemma_commands_concat(front, back.drop_last(), from, to);
        let whole = front + back;
        assert(whole.drop_last() =~= front + back.drop_last());
        assert(whole.last() == back.last());
        let a = back.last();
        if in_window(a.offset, from, to) && spec_command(a.action) is Some {
            assert(commands_in(front, from, to) + commands_in(back.drop_last(), from, to).push(
                spec_command(a.action)->Some_0,
            ) =~= (commands_in(front, from, to) + commands_in(back.drop_last(), from, to)).push(
                spec_command(a.action)->Some_0,
            ));
        }
    }
}

/// An unknown button does not stop a replay: within the window, it is
/// reported by its number and the actions after it are dispatched as they
/// would be without it.
pub proof fn lemma_unknown_button_keeps_rest(
    front: Seq<MacroAction>,
    unknown: MacroAction,
    back: Seq<MacroAction>,
    from: u64,
    to: u64,
)
    requires
        unknown.action matches UserAction::MouseButton(b) && spec_button_for(b.button) is None,
        in_window(unknown.offset, from, to),
    ensures
        commands_in(front.push(unknown) + back, from, to) == commands_in(front, from, to).push(
            Command::UnknownButton { number: unknown.action->MouseButton_0.button },
        ) + commands_in(back, from, to),
{
    lemma_commands_concat(front.push(unknown), back, from, to);
    assert(front.push(unknown).drop_last() =~= front);
}

/// Where a replay stands: whether it has begun and ended, and the first
/// offset whose actions have not been dispatched yet.
#[derive(Debug, Clone, Copy, PartialEq, Eq, Structural)]
pub struct Player {
    pub started: bool,
    pub finished: bool,
    pub next: u64,
}

/// What to do after a poll of the replay clock.
#[derive(Debug, Clone)]
pub enum PlaybackStep {
    /// Make these calls on the simulator, in order, then poll again.
    Run(Vec<Command>),
    /// The recording's length has elapsed: the replay is over.
    Finished,
}

impl Player {
    /// A replay that has not begun.
    pub fn new() -> (r: Self)
        ensures
            !r.started,
            !r.finished,
            r.next == 0,
    {
        Player { started: false, finished: false, next: 0 }
    }
}

impl Macro {
    /// The commands for the actions whose offsets lie in `[from, to)`, in
    /// log order; actions whose button or key the simulator lacks are
    /// skipped, and the actions after them are still dispatched.
    pub fn commands_between(&self, from: u64, to: u64) -> (r: Vec<Command>)
        ensures
            r@ == commands_in(self.log(), from, to),
    {
        let actions = self.actions();
        let mut out: Vec<Command> = Vec::new();
        let mut i: usize = 0;
        while i < actions.len()
            invariant
                actions@ == self.log(),
                0 <= i <= actions@.len(),
                out@ == commands_in(actions@.take(i as int), from, to),
            decreases actions@.len() - i,
        {
            assert(actions@.take(i as int + 1).drop_last() =~= actions@.take(i as int));
            let a = &actions[i];
            if from <= a.offset && a.offset < to {
                match command_for(&a.action) {
                    Some(c) => out.push(c),
                    None => {},
                }
            }
            i = i + 1;
        }
        assert(actions@.take(i as int) =~= actions@);
        out
    }

    /// Decides the next step of a replay, `elapsed` milliseconds after it
    /// began.
    ///
    /// The first poll moves the pointer to the recording's starting
    /// position. Each later poll dispatches every action not yet
    /// dispatched whose offset is at most `elapsed`, so that no action is
    /// lost between two polls. The first poll at or past the recording's
    /// end dispatches what is left before the end; the poll after it
    /// reports the replay finished.
    pub fn playback(&self, player: &mut Player, elapsed: u64) -> (r: PlaybackStep)
        ensures
            !old(player).started ==> {
                &&& r matches PlaybackStep::Run(cmds)
                &&& cmds@ == seq![
                    Command::MoveTo { x: self.meta().cursor_pos.0, y: self.meta().cursor_pos.1 },
                ]
                &&& *final(player) == Player { started: true, finished: false, next: 0 }
            },
            old(player).started && old(player).finished ==> {
                &&& r is Finished
                &&& *final(player) == *old(player)
            },
            old(player).started && !old(player).finished && elapsed >= self.meta().end ==> {
                &&& r matches PlaybackStep::Run(cmds)
                &&& cmds@ == commands_in(self.log(), old(player).next, self.meta().end)
                &&& *final(player) == Player { finished: true, next: self.meta().end, ..*old(player) }
            },
            old(player).started && !old(player).finished && elapsed < self.meta().end
                && elapsed < old(player).next ==> {
                &&& r matches PlaybackStep::Run(cmds)
                &&& cmds@.len() == 0
                &&& *final(player) == *old(player)
            },
            old(player).started && !old(player).finished && elapsed < self.meta().end
                && elapsed >= old(player).next ==> {
                &&& r matches PlaybackStep::Run(cmds)
                &&& cmds@ == commands_in(self.log(), old(player).next, (elapsed + 1) as u64)
                &&& *final(player) == Player { next: (elapsed + 1) as u64, ..*old(player) }
            },
    {
        if !player.started {
            *player = Player { started: true, finished: false, next: 0 };
            let meta = self.metadata();
            let mut cmds: Vec<Command> = Vec::new();
            cmds.push(Command::MoveTo { x: meta.cursor_pos.0, y: meta.cursor_pos.1 });
            PlaybackStep::Run(cmds)
        } else if player.finished {
            PlaybackStep::Finished
        } else if elapsed >= self.metadata().end {
            let end = self.metadata().end;
            let cmds = self.commands_between(player.next, end);
            player.finished = true;
            player.next = end;
            PlaybackStep::Run(cmds)
        } else if elapsed < player.next {
            PlaybackStep::Run(Vec::new())
        } else {
            let to = elapsed + 1;
            let cmds = self.commands_between(player.next, to);
            player.next = to;
            PlaybackStep::Run(cmds)
        }
    }
}

} // verus!
