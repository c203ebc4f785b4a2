use vstd::prelude::*;

verus! {

/// A stimulus that the runtime delivers to widgets.
pub enum Event {
    /// Broadcast to every widget: refresh from its observer.
    Update,
    /// Addressed to the widget named `source`, with a new value.
    Change { source: String, value: String },
    /// A bare activation of the widget named `source`.
    Click { source: String },
}

/// The script that, run in the page, sends a `Change` from `source` with the
/// value that the script expression `value` yields.
pub open spec fn change_js_of(source: Seq<char>, value: Seq<char>) -> Seq<char> {
    "emit('Change','"@ + source + "',"@ + value + ")"@
}

impl Event {
    /// A `Change` event addressed to `source`.
    pub fn change(source: &str, value: &str) -> (r: Event)
        ensures
            match r {
                Event::Change { source: s, value: v } => s@ == source@ && v@ == value@,
                _ => false,
            },
    {
        Event::Change { source: String::from_str(source), value: String::from_str(value) }
    }

    /// The script that a widget binds to an interaction so that the runtime
    /// delivers a `Change` from `source` back to it.
    pub fn change_js(source: &str, value: &str) -> (r: String)
        ensures
            r@ == change_js_of(source@, value@),
    {
        let mut s = String::from_str("emit('Change','");
        s.append(source);
        s.append("',");
        s.append(value);
        s.append(")");
        s
    }
}

} // verus!
