use vstd::prelude::*;

verus! {

/// What a widget calls when the user acts on it. Both methods do nothing
/// unless an implementation says otherwise.
pub trait Listener {
    /// The widget's primary interaction fired, with no payload.
    fn on_click(&self) {
    }

    /// The widget's state changed by the user's hand; `value` is the new value.
    fn on_change(&self, value: &str) {
    }
}

} // verus!
