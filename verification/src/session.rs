//! The lifecycle of a dashboard session.
//!
//! A session is driven from outside: the driver performs the action that is pending,
//! reports how it went, and the session says what is pending next. The terminal is
//! acquired, then frames are drawn and input is awaited in turn until a quit key or a
//! failure; then the terminal is restored, a failure is reported, and the session is
//! finished.

use vstd::prelude::*;
use crate::input::{Input, Key, KeyCode, Modifiers};

verus! {

/// The exit status of a session that was quit.
pub const EXIT_QUIT: u8 = 0;

/// The exit status of a session that failed.
pub const EXIT_FAILURE: u8 = 1;

/// What the driver is to do next.
#[derive(Clone, Copy, Debug, PartialEq, Eq, Structural)]
pub enum Action {
    /// Put the terminal into raw mode and onto the alternate screen.
    Acquire,
    /// Draw one frame.
    Draw,
    /// Wait for one input event.
    Read,
    /// Put the terminal back into its former mode and onto its primary screen.
    Restore,
    /// Write the diagnostic of the failure.
    Report,
    /// Leave with this status.
    Exit(u8),
}

/// How the action that was pending went.
#[derive(Clone, Copy, Debug, PartialEq, Eq, Structural)]
pub enum Outcome {
    /// It was done; for `Read` this is no outcome, since a read delivers an event.
    Done,
    /// It failed.
    Failed,
    /// An input event was read.
    Input(Input),
}

/// The state of a session, named by the action that is pending in it.
#[derive(Clone, Copy, Debug, PartialEq, Eq, Structural)]
pub enum Session {
    /// The terminal is to be acquired.
    Acquiring,
    /// A frame is to be drawn.
    Drawing,
    /// An input event is awaited.
    Waiting,
    /// The terminal is to be restored, after a failure or after a quit key.
    Restoring { failed: bool },
    /// The terminal has been restored and the failure is to be reported.
    Reporting,
    /// Nothing is left but to exit.
    Finished { failed: bool },
}

impl Session {
    /// The action that is pending in this state.
    pub open spec fn pending(self) -> Action {
        match self {
            Session::Acquiring => Action::Acquire,
            Session::Drawing => Action::Draw,
            Session::Waiting => Action::Read,
            Session::Restoring { .. } => Action::Restore,
            Session::Reporting => Action::Report,
            Session::Finished { failed } => Action::Exit(
                if failed {
                    EXIT_FAILURE
                } else {
                    EXIT_QUIT
                },
            ),
        }
    }

    /// The state after the pending action went as `outcome` says.
    ///
    /// An outcome that the pending action cannot have counts as a failure. Once the
    /// restoration is pending, the session only moves on towards its end.
    pub open spec fn next(self, outcome: Outcome) -> Session {
        match self {
            Session::Acquiring => match outcome {
                Outcome::Done => Session::Drawing,
                _ => Session::Restoring { failed: true },
            },
            Session::Drawing => match outcome {
                Outcome::Done => Session::Waiting,
                _ => Session::Restoring { failed: true },
            },
            Session::Waiting => match outcome {
                Outcome::Input(input) => if input.quits() {
                    Session::Restoring { failed: false }
                } else {
                    Session::Drawing
                },
                _ => Session::Restoring { failed: true },
            },
            Session::Restoring { failed } => if !failed && outcome == Outcome::Done {
                Session::Finished { failed: false }
            } else {
                Session::Reporting
            },
            Session::Reporting => Session::Finished { failed: true },
            Session::Finished { failed } => Session::Finished { failed },
        }
    }

    /// The state after the outcomes in `outcomes`, one after the other.
    pub open spec fn after(self, outcomes: Seq<Outcome>) -> Session
        decreases outcomes.len(),
    {
        if outcomes.len() == 0 {
            self
        } else {
            self.after(outcomes.drop_last()).next(outcomes.last())
        }
    }

    /// How many times `action` was performed in the course of `outcomes`: how many of the
    /// outcomes report on it.
    pub open spec fn performed(self, action: Action, outcomes: Seq<Outcome>) -> nat
        decreases outcomes.len(),
    {
        if outcomes.len() == 0 {
            0
        } else {
            let earlier = self.performed(action, outcomes.drop_last());
            if self.after(outcomes.drop_last()).pending() == action {
                earlier + 1
            } else {
                earlier
            }
        }
    }

    /// A new session: the terminal is to be acquired.
    pub fn start() -> (session: Session)
        ensures
            session == Session::Acquiring,
    {
        Session::Acquiring
    }

    /// The action that the driver is to perform now.
    pub fn action(&self) -> (action: Action)
        ensures
            action == self.pending(),
    {
        match self {
            Session::Acquiring => Action::Acquire,
            Session::Drawing => Action::Draw,
            Session::Waiting => Action::Read,
            Session::Restoring { .. } => Action::Restore,
            Session::Reporting => Action::Report,
            Session::Finished { failed } => if *failed {
                Action::Exit(EXIT_FAILURE)
            } else {
                Action::Exit(EXIT_QUIT)
            },
        }
    }

    /// Moves the session on by the outcome of the action that was pending.
    pub fn advance(self, outcome: Outcome) -> (session: Session)
        ensures
            session == self.next(outcome),
    {
        match self {
            Session::Acquiring => match outcome {
                Outcome::Done => Session::Drawing,
                _ => Session::Restoring { failed: true },
            },
            Session::Drawing => match outcome {
                Outcome::Done => Session::Waiting,
                _ => Session::Restoring { failed: true },
            },
            Session::Waiting => match outcome {
                Outcome::Input(input) => if input.is_quit() {
                    Session::Restoring { failed: false }
                } else {
                    Session::Drawing
                },
                _ => Session::Restoring { failed: true },
            },
            Session::Restoring { failed } => match outcome {
                Outcome::Done => if failed {
                    Session::Reporting
                } else {
                    Session::Finished { failed: false }
                },
                _ => Session::Reporting,
            },
            Session::Reporting => Session::Finished { failed: true },
            Session::Finished { failed } => Session::Finished { failed },
        }
    }
}

/// In the course of any outcomes of a new session, the terminal has been restored once
/// when the report is pending or the session is finished, and not at all before; and the
/// failure has been reported once when the session is finished after a failure, and not
/// at all otherwise.
pub proof fn restored_once_then_reported(outcomes: Seq<Outcome>)
    ensures
        Session::Acquiring.performed(Action::Restore, outcomes) == (match Session::Acquiring.after(
            outcomes,
        ) {
            Session::Reporting | Session::Finished { .. } => 1nat,
            _ => 0nat,
        }),
        Session::Acquiring.performed(Action::Report, outcomes) == (match Session::Acquiring.after(
            outcomes,
        ) {
            Session::Finished { failed: true } => 1nat,
            _ => 0nat,
        }),
    decreases outcomes.len(),
{
    if outcomes.len() > 0 {
        restored_once_then_reported(outcomes.drop_last());
    }
}

/// Whichever way a new session comes to its end, by a quit key or by a failure, it
/// has restored the terminal exactly once when it is finished, and at no time has it
/// restored the terminal more than once.
pub proof fn restoration_is_single(outcomes: Seq<Outcome>)
    ensures
        Session::Acquiring.performed(Action::Restore, outcomes) <= 1,
        Session::Acquiring.after(outcomes) is Finished ==> Session::Acquiring.performed(
            Action::Restore,
            outcomes,
        ) == 1,
{
    restored_once_then_reported(outcomes);
}

/// No diagnostic is written while the terminal is still held: when the report of a new
/// session is pending, the restoration has been performed and the report has not, and at
/// no time has more been reported than restored.
pub proof fn report_waits_for_restoration(outcomes: Seq<Outcome>)
    ensures
        Session::Acquiring.after(outcomes).pending() == Action::Report ==> {
            &&& Session::Acquiring.performed(Action::Restore, outcomes) == 1
            &&& Session::Acquiring.performed(Action::Report, outcomes) == 0
        },
        Session::Acquiring.performed(Action::Report, outcomes) <= Session::Acquiring.performed(
            Action::Restore,
            outcomes,
        ),
{
    restored_once_then_reported(outcomes);
}

/// A failure to acquire the terminal, to draw a frame or to read input ends the frames:
/// the terminal is restored next, then the failure is reported, then the session exits
/// with the status of a failure.
pub proof fn failure_unwinds(outcomes: Seq<Outcome>)
    requires
        Session::Acquiring.after(outcomes) is Acquiring
            || Session::Acquiring.after(outcomes) is Drawing
            || Session::Acquiring.after(outcomes) is Waiting,
    ensures
        ({
            let failed = outcomes.push(Outcome::Failed);
            let restored = failed.push(Outcome::Done);
            let reported = restored.push(Outcome::Done);
            &&& Session::Acquiring.after(failed).pending() == Action::Restore
            &&& Session::Acquiring.after(restored).pending() == Action::Report
            &&& Session::Acquiring.after(reported).pending() == Action::Exit(EXIT_FAILURE)
            &&& Session::Acquiring.performed(Action::Restore, reported) == 1
            &&& Session::Acquiring.performed(Action::Report, reported) == 1
        }),
{
    let failed = outcomes.push(Outcome::Failed);
    let restored = failed.push(Outcome::Done);
    let reported = restored.push(Outcome::Done);
    assert(failed.drop_last() == outcomes);
    assert(restored.drop_last() == failed);
    assert(reported.drop_last() == restored);
    restored_once_then_reported(reported);
}

/// From any frame of a new session, an input that asks to quit ends the session: the
/// terminal is restored next and then the session exits with the status of a quit,
/// having restored the terminal once and reported nothing.
pub proof fn quit_ends_session(outcomes: Seq<Outcome>, input: Input)
    requires
        Session::Acquiring.after(outcomes) == Session::Waiting,
        input.quits(),
    ensures
        ({
            let quit = outcomes.push(Outcome::Input(input));
            let restored = quit.push(Outcome::Done);
            &&& Session::Acquiring.after(quit).pending() == Action::Restore
            &&& Session::Acquiring.after(restored).pending() == Action::Exit(EXIT_QUIT)
            &&& Session::Acquiring.performed(Action::Restore, restored) == 1
            &&& Session::Acquiring.performed(Action::Report, restored) == 0
        }),
{
    let quit = outcomes.push(Outcome::Input(input));
    let restored = quit.push(Outcome::Done);
    assert(quit.drop_last() == outcomes);
    assert(restored.drop_last() == quit);
    restored_once_then_reported(restored);
}

/// `c` with the control key held, whatever else is held with it, moves a session exactly
/// where `q` with no modifier held moves it.
pub proof fn quit_keys_are_alike(session: Session, held: Modifiers)
    requires
        held.control,
    ensures
        session.next(Outcome::Input(Input::Key(Key { code: KeyCode::Char('c'), modifiers: held })))
            == session.next(
            Outcome::Input(
                Input::Key(
                    Key {
                        code: KeyCode::Char('q'),
                        modifiers: Modifiers {
                            shift: false,
                            control: false,
                            alt: false,
                            logo: false,
                            hyper: false,
                            meta: false,
                        },
                    },
                ),
            ),
        ),
{
}

/// From any frame of a new session, an input that does not ask to quit leaves the
/// session running: the next frame is drawn, and the terminal stays held.
pub proof fn other_input_redraws(outcomes: Seq<Outcome>, input: Input)
    requires
        Session::Acquiring.after(outcomes) == Session::Waiting,
        !input.quits(),
    ensures
        ({
            let went_on = outcomes.push(Outcome::Input(input));
            &&& Session::Acquiring.after(went_on) == Session::Drawing
            &&& Session::Acquiring.after(went_on).pending() == Action::Draw
            &&& Session::Acquiring.after(went_on.push(Outcome::Done)) == Session::Waiting
            &&& Session::Acquiring.performed(Action::Restore, went_on) == 0
        }),
{
    let went_on = outcomes.push(Outcome::Input(input));
    assert(went_on.drop_last() == outcomes);
    assert(went_on.push(Outcome::Done).drop_last() == went_on);
    restored_once_then_reported(went_on);
}

} // verus!
