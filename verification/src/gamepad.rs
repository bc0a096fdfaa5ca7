use vstd::prelude::*;
use crate::seq_util::{flat_map, lemma_flat_map_prefix_step, lemma_full_prefix};

verus! {

/// What happened to a gamepad.
#[derive(Clone, Copy, Debug, PartialEq, Eq, Structural)]
pub enum GamepadConnection {
    Connected,
    Disconnected,
    Other,
}

/// A change to the gamepad the game listens to.
#[derive(Clone, Copy, Debug, PartialEq, Eq, Structural)]
pub enum ControllerCommand {
    /// Listen to this gamepad.
    Use(usize),
    /// Stop listening to the current gamepad.
    Release,
}

/// The change one gamepad event asks for, given the gamepad in use when the
/// frame began: a connected gamepad is taken up when none is in use, and the
/// gamepad in use is let go when it disconnects.
pub open spec fn controller_change(controller: Option<usize>, event: (usize, GamepadConnection)) -> Seq<ControllerCommand> {
    match event.1 {
        GamepadConnection::Connected => if controller is None {
            seq![ControllerCommand::Use(event.0)]
        } else {
            Seq::empty()
        },
        GamepadConnection::Disconnected => if controller == Some(event.0) {
            seq![ControllerCommand::Release]
        } else {
            Seq::empty()
        },
        GamepadConnection::Other => Seq::empty(),
    }
}

/// The changes a frame's gamepad events ask for, event by event.
pub open spec fn controller_changes(controller: Option<usize>, events: Seq<(usize, GamepadConnection)>) -> Seq<ControllerCommand> {
    flat_map(events, |e: (usize, GamepadConnection)| controller_change(controller, e))
}

/// The changes to the gamepad in use that a frame's events ask for; every
/// event is judged against the gamepad in use when the frame began.
pub fn gamepad_connection(controller: Option<usize>, events: &Vec<(usize, GamepadConnection)>) -> (r: Vec<ControllerCommand>)
    ensures
        r@ == controller_changes(controller, events@),
{
    let mut out: Vec<ControllerCommand> = Vec::new();
    let mut i: usize = 0;
    while i < events.len()
        invariant
            i <= events.len(),
            out@ == controller_changes(controller, events@.take(i as int)),
        decreases events.len() - i,
    {
        let (gamepad, kind) = events[i];
        match kind {
            GamepadConnection::Connected => {
                if controller.is_none() {
                    out.push(ControllerCommand::Use(gamepad));
                }
            },
            GamepadConnection::Disconnected => {
                if let Some(old_id) = controller {
                    if old_id == gamepad {
                        out.push(ControllerCommand::Release);
                    }
                }
            },
            GamepadConnection::Other => {},
        }
        proof {
            lemma_flat_map_prefix_step(
                events@,
                |e: (usize, GamepadConnection)| controller_change(controller, e),
                i as int,
            );
            assert(out@ =~= controller_changes(controller, events@.take(i + 1)));
        }
        i += 1;
    }
    proof {
        lemma_full_prefix(events@);
    }
    out
}

} // verus!
