use vstd::prelude::*;

verus! {

/// The length of one tick, in milliseconds.
pub const TICK_MS: u64 = 1000;

/// Whether the loop goes on.
#[derive(Clone, Copy, Debug, PartialEq, Eq, Structural)]
pub enum LoopState {
    Running,
    Stopped,
}

/// What a wait for input brought.
#[derive(Clone, Copy, Debug, PartialEq, Eq, Structural)]
pub enum InputEvent {
    /// A key that stands for a character.
    Key(char),
    /// Any other event: another key, the mouse, a resize.
    Other,
    /// The wait ran out with nothing read.
    Timeout,
}

/// What the driver reports back after doing the last action.
#[derive(Clone, Copy, Debug, PartialEq, Eq, Structural)]
pub enum LoopEvent {
    /// The driver is ready and has set the tick anchor.
    Started,
    /// A frame was sampled and drawn; `elapsed_ms` have passed since the anchor.
    Rendered { elapsed_ms: u64 },
    /// The wait for input ended with `input`, `elapsed_ms` after the anchor.
    Polled { input: InputEvent, elapsed_ms: u64 },
}

/// What the driver does next.
#[derive(Clone, Copy, Debug, PartialEq, Eq, Structural)]
pub enum LoopAction {
    /// Take a fresh snapshot and draw it, after moving the tick anchor to now
    /// when `reset_anchor` is set.
    Render { reset_anchor: bool },
    /// Wait for input for at most `timeout_ms`.
    Wait { timeout_ms: u64 },
    /// Leave the loop.
    Exit,
}

/// Whether `input` is the quit command.
pub open spec fn is_quit(input: InputEvent) -> bool {
    input == InputEvent::Key('q')
}

/// What is left of a tick of `tick` after `elapsed`, never below zero.
pub open spec fn remaining_ms(tick: nat, elapsed: nat) -> nat {
    if elapsed >= tick {
        0
    } else {
        (tick - elapsed) as nat
    }
}

/// The state and action that follow `event` in `state`.
pub open spec fn next_step(state: LoopState, tick: u64, event: LoopEvent) -> (LoopState, LoopAction) {
    match state {
        LoopState::Stopped => (LoopState::Stopped, LoopAction::Exit),
        LoopState::Running => match event {
            LoopEvent::Started => (LoopState::Running, LoopAction::Render { reset_anchor: false }),
            LoopEvent::Rendered { elapsed_ms } => (
                LoopState::Running,
                LoopAction::Wait { timeout_ms: remaining_ms(tick as nat, elapsed_ms as nat) as u64 },
            ),
            LoopEvent::Polled { input, elapsed_ms } => if is_quit(input) {
                (LoopState::Stopped, LoopAction::Exit)
            } else if elapsed_ms >= tick {
                (LoopState::Running, LoopAction::Render { reset_anchor: true })
            } else {
                (
                    LoopState::Running,
                    LoopAction::Wait {
                        timeout_ms: remaining_ms(tick as nat, elapsed_ms as nat) as u64,
                    },
                )
            },
        },
    }
}

/// How long to wait for input: the rest of the tick, or nothing once the
/// tick has run out.
pub fn remaining_timeout(tick_ms: u64, elapsed_ms: u64) -> (r: u64)
    ensures
        r == remaining_ms(tick_ms as nat, elapsed_ms as nat),
        0 <= r <= tick_ms,
{
    if elapsed_ms >= tick_ms {
        0
    } else {
        tick_ms - elapsed_ms
    }
}

/// The decisions of the refresh loop: sample and draw once per tick, wait
/// for input for the rest of it, and stop on the quit command.
pub struct TickLoop {
    pub state: LoopState,
    pub tick_ms: u64,
    /// How many frames the loop has asked for, held at `u64::MAX` once there.
    pub renders: u64,
}

impl TickLoop {
    pub fn new(tick_ms: u64) -> (r: TickLoop)
        ensures
            r.state == LoopState::Running,
            r.tick_ms == tick_ms,
            r.renders == 0,
    {
        TickLoop { state: LoopState::Running, tick_ms, renders: 0 }
    }

    pub fn is_running(&self) -> (r: bool)
        ensures
            r == (self.state == LoopState::Running),
    {
        match self.state {
            LoopState::Running => true,
            LoopState::Stopped => false,
        }
    }

    /// Takes the driver's report of what happened and says what to do next.
    pub fn step(&mut self, event: LoopEvent) -> (a: LoopAction)
        ensures
            (final(self).state, a) == next_step(old(self).state, old(self).tick_ms, event),
            final(self).tick_ms == old(self).tick_ms,
            final(self).renders == if a is Render && old(self).renders < u64::MAX {
                old(self).renders + 1
            } else {
                old(self).renders as int
            },
    {
        let a = match self.state {
            LoopState::Stopped => LoopAction::Exit,
            LoopState::Running => match event {
                LoopEvent::Started => LoopAction::Render { reset_anchor: false },
                LoopEvent::Rendered { elapsed_ms } => LoopAction::Wait {
                    timeout_ms: remaining_timeout(self.tick_ms, elapsed_ms),
                },
                LoopEvent::Polled { input, elapsed_ms } => {
                    let quit = match input {
                        InputEvent::Key(c) => c == 'q',
                        _ => false,
                    };
                    if quit {
                        self.state = LoopState::Stopped;
                        LoopAction::Exit
                    } else if elapsed_ms >= self.tick_ms {
                        LoopAction::Render { reset_anchor: true }
                    } else {
                        LoopAction::Wait { timeout_ms: remaining_timeout(self.tick_ms, elapsed_ms) }
                    }
                },
            },
        };
        if let LoopAction::Render { .. } = a {
            if self.renders < u64::MAX {
                self.renders = self.renders + 1;
            }
        }
        a
    }
}

/// Once stopped the loop stays stopped, and it stops from running only on
/// the quit command.
pub proof fn lemma_stops_only_on_quit(tick: u64, event: LoopEvent)
    ensures
        next_step(LoopState::Stopped, tick, event) == (LoopState::Stopped, LoopAction::Exit),
        next_step(LoopState::Running, tick, event).0 == LoopState::Stopped <==> (
        event is Polled && is_quit(event->Polled_input)),
        next_step(LoopState::Running, tick, event).1 is Exit <==> next_step(
            LoopState::Running,
            tick,
            event,
        ).0 == LoopState::Stopped,
{
}

/// A wait never lasts longer than a tick, and a wait together with the time
/// already gone never overshoots the end of the tick.
pub proof fn lemma_wait_within_tick(tick: nat, elapsed: nat)
    ensures
        0 <= remaining_ms(tick, elapsed) <= tick,
        elapsed < tick ==> elapsed + remaining_ms(tick, elapsed) == tick,
{
}

} // verus!
