//! Window events as the render loop sees them, and the decision of whether an
//! event asks the loop to stop.

use vstd::prelude::*;

verus! {

/// A key as far as the loop cares: the escape key stops it, any other does not.
#[derive(Clone, Copy, Debug, PartialEq, Eq, Structural)]
pub enum Key {
    Escape,
    Other,
}

/// A window event delivered between frames.
#[derive(Clone, Copy, Debug, PartialEq, Eq, Structural)]
pub enum WindowEvent {
    CloseRequested,
    KeyPressed { key: Key },
    Other,
}

/// An event asks the loop to stop when the window was closed or the escape
/// key was pressed.
pub open spec fn is_quit_event(ev: WindowEvent) -> bool {
    ||| ev is CloseRequested
    ||| (ev matches WindowEvent::KeyPressed { key } && key is Escape)
}

/// Decide whether a single event asks the loop to stop.
pub fn quit_event(ev: &WindowEvent) -> (b: bool)
    ensures
        b == is_quit_event(*ev),
{
    match ev {
        WindowEvent::CloseRequested => true,
        WindowEvent::KeyPressed { key: Key::Escape } => true,
        _ => false,
    }
}

/// Whether any event in a batch asks the loop to stop.
pub open spec fn any_quit_event(events: Seq<WindowEvent>) -> bool {
    exists|k: int| 0 <= k < events.len() && is_quit_event(events[k])
}

} // verus!
