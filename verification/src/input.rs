//! Translation of raw input events into timer commands. The terminal layer
//! reduces whatever it reads (key presses, mouse wheel movement) to this
//! alphabet of plain values; the mapping from it to commands is the
//! engine's rule and is fixed here.

use vstd::prelude::*;

use crate::duration::SessionDuration;
use crate::protocol::Event;

verus! {

/// One raw input event, already stripped of terminal detail: a character
/// key pressed with or without the control modifier, the few special keys
/// the timer reacts to, or anything else.
#[derive(Clone, Copy, PartialEq, Eq, Structural, Debug)]
pub enum KeyInput {
    CtrlChar(char),
    Char(char),
    Up,
    Down,
    Esc,
    ScrollUp,
    ScrollDown,
    Other,
}

/// The input was not one the timer assigns a meaning to.
#[derive(Clone, Copy, PartialEq, Eq, Structural, Debug)]
pub struct EventConversionUndefinedError;

/// The command an input stands for, if any.
pub open spec fn spec_input_event(input: KeyInput) -> Option<Event> {
    match input {
        KeyInput::CtrlChar(c) => if c == 'c' {
            Some(Event::Quit)
        } else {
            None
        },
        KeyInput::Char(c) => if c == 'q' {
            Some(Event::Quit)
        } else if c == 'r' {
            Some(Event::ResetTimer)
        } else if c == 's' {
            Some(Event::SkipActivity)
        } else if c == ' ' {
            Some(Event::ToggleTimer)
        } else {
            None
        },
        KeyInput::Up => Some(Event::ExtendActivity(SessionDuration { millis: 60000 })),
        KeyInput::Down => Some(Event::ReduceActivity(SessionDuration { millis: 60000 })),
        KeyInput::Esc => Some(Event::Quit),
        KeyInput::ScrollUp => Some(Event::ExtendActivity(SessionDuration { millis: 60000 })),
        KeyInput::ScrollDown => Some(Event::ReduceActivity(SessionDuration { millis: 60000 })),
        KeyInput::Other => None,
    }
}

/// Maps an input to its command: `q`, escape, and control-`c` quit; `r`
/// resets; `s` skips; space toggles the timer; the up and down arrows and
/// the scroll wheel extend or shorten the current activity by one minute.
/// Everything else means nothing to the timer.
pub fn input_to_event(input: &KeyInput) -> (r: Result<Event, EventConversionUndefinedError>)
    ensures
        match r {
            Ok(e) => spec_input_event(*input) == Some(e),
            Err(_) => spec_input_event(*input) is None,
        },
{
    let converted: Option<Event> = match input {
        KeyInput::CtrlChar(c) => {
            if *c == 'c' {
                Some(Event::Quit)
            } else {
                None
            }
        },
        KeyInput::Char(c) => {
            if *c == 'q' {
                Some(Event::Quit)
            } else if *c == 'r' {
                Some(Event::ResetTimer)
            } else if *c == 's' {
                Some(Event::SkipActivity)
            } else if *c == ' ' {
                Some(Event::ToggleTimer)
            } else {
                None
            }
        },
        KeyInput::Up => Some(Event::ExtendActivity(SessionDuration { millis: 60000 })),
        KeyInput::Down => Some(Event::ReduceActivity(SessionDuration { millis: 60000 })),
        KeyInput::Esc => Some(Event::Quit),
        KeyInput::ScrollUp => Some(Event::ExtendActivity(SessionDuration { millis: 60000 })),
        KeyInput::ScrollDown => Some(
            Event::ReduceActivity(SessionDuration { millis: 60000 }),
        ),
        KeyInput::Other => None,
    };
    match converted {
        Some(e) => Ok(e),
        None => Err(EventConversionUndefinedError),
    }
}

} // verus!
