use vstd::prelude::*;

use crate::components::Direction;

verus! {

/// What the player asked for this frame.
#[derive(Clone, Copy, Debug, PartialEq, Eq, Structural)]
pub enum MovementCommand {
    Stop,
    Move(Direction),
}

/// The keys the game listens to.
#[derive(Clone, Copy, Debug, PartialEq, Eq, Structural)]
pub enum Key {
    Up,
    Down,
    Left,
    Right,
    Escape,
    Other,
}

/// An input event, as the platform layer reports it.
#[derive(Clone, Copy, Debug, PartialEq, Eq, Structural)]
pub enum InputEvent {
    /// The window was closed.
    Quit,
    KeyDown { key: Key, repeat: bool },
    KeyUp { key: Key, repeat: bool },
    /// Any event the game ignores.
    Other,
}

/// What the events of one frame amount to: leave the game, or run the frame
/// with at most one command.
#[derive(Clone, Copy, Debug, PartialEq, Eq, Structural)]
pub enum FrameInput {
    Quit,
    Run(Option<MovementCommand>),
}

/// The direction an arrow key stands for.
pub open spec fn arrow_direction(k: Key) -> Option<Direction> {
    match k {
        Key::Up => Some(Direction::Up),
        Key::Down => Some(Direction::Down),
        Key::Left => Some(Direction::Left),
        Key::Right => Some(Direction::Right),
        _ => None,
    }
}

/// Whether `e` ends the game.
pub open spec fn is_quit(e: InputEvent) -> bool {
    e is Quit || e matches InputEvent::KeyDown { key: Key::Escape, .. }
}

/// The command an event gives, if any: the first press of an arrow key
/// walks that way, the release of one stops; repeats are ignored.
pub open spec fn event_command(e: InputEvent) -> Option<MovementCommand> {
    match e {
        InputEvent::KeyDown { key, repeat: false } => match arrow_direction(key) {
            Some(d) => Some(MovementCommand::Move(d)),
            None => None,
        },
        InputEvent::KeyUp { key, repeat: false } => match arrow_direction(key) {
            Some(_) => Some(MovementCommand::Stop),
            None => None,
        },
        _ => None,
    }
}

/// The command left by the first `n` events: that of the last one that gave
/// a command, or none.
pub open spec fn pending_command(events: Seq<InputEvent>, n: int) -> Option<MovementCommand>
    decreases n,
{
    if n <= 0 {
        None
    } else {
        match event_command(events[n - 1]) {
            Some(c) => Some(c),
            None => pending_command(events, n - 1),
        }
    }
}

fn arrow_key_direction(k: Key) -> (r: Option<Direction>)
    ensures
        r == arrow_direction(k),
{
    match k {
        Key::Up => Some(Direction::Up),
        Key::Down => Some(Direction::Down),
        Key::Left => Some(Direction::Left),
        Key::Right => Some(Direction::Right),
        _ => None,
    }
}

/// Turns the events polled in one frame into what the frame does: quit at
/// the first quit event; otherwise run with the command of the last event
/// that gave one.
pub fn frame_input(events: &Vec<InputEvent>) -> (r: FrameInput)
    ensures
        (exists|i: int| 0 <= i < events@.len() && is_quit(#[trigger] events@[i])) ==> r == FrameInput::Quit,
        (forall|i: int| 0 <= i < events@.len() ==> !is_quit(#[trigger] events@[i])) ==> r
            == FrameInput::Run(pending_command(events@, events@.len() as int)),
{
    let mut command: Option<MovementCommand> = None;
    let mut i: usize = 0;
    while i < events.len()
        invariant
            0 <= i <= events@.len(),
            forall|j: int| 0 <= j < i ==> !is_quit(#[trigger] events@[j]),
            command == pending_command(events@, i as int),
        decreases events@.len() - i,
    {
        let e = events[i];
        match e {
            InputEvent::Quit => {
                return FrameInput::Quit;
            },
            InputEvent::KeyDown { key: Key::Escape, .. } => {
                return FrameInput::Quit;
            },
            InputEvent::KeyDown { key, repeat: false } => {
                if let Some(d) = arrow_key_direction(key) {
                    command = Some(MovementCommand::Move(d));
                }
            },
            InputEvent::KeyUp { key, repeat: false } => {
                if arrow_key_direction(key).is_some() {
                    command = Some(MovementCommand::Stop);
                }
            },
            _ => {},
        }
        i = i + 1;
    }
    FrameInput::Run(command)
}

} // verus!
