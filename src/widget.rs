use vstd::prelude::*;
use crate::event::Event;
use crate::observer::ObserverDataError;

verus! {

/// A stateful element: it renders itself, reacts to events and refreshes
/// itself from an observer.
pub trait Widget {
    /// The complete markup for the current state.
    fn eval(&self) -> String;

    /// Reacts to one event.
    fn trigger(&mut self, event: &Event) -> Result<(), ObserverDataError>;

    /// Pulls a snapshot from the observer, if any, and takes its values.
    fn on_update(&mut self) -> Result<(), ObserverDataError>;
}

} // verus!
