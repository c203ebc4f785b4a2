use vstd::prelude::*;
use crate::event::{Event, change_js_of};
use crate::listener::Listener;
use crate::observer::{Observer, ObserverDataError, Snapshot, SnapshotField, flag_of, parse_flag};
use crate::widget::Widget;

verus! {

/// The state of a [`CheckBox`] as values.
pub struct CheckBoxView {
    pub name: Seq<char>,
    pub checked: bool,
    pub text: Seq<char>,
    pub stretch: Seq<char>,
    pub has_listener: bool,
    pub has_observer: bool,
    /// The values handed to the listener's `on_change`, oldest first.
    pub delivered: Seq<Seq<char>>,
}

impl CheckBoxView {
    pub open spec fn with_checked(self, checked: bool) -> CheckBoxView {
        CheckBoxView { checked: checked, ..self }
    }

    pub open spec fn with_text(self, text: Seq<char>) -> CheckBoxView {
        CheckBoxView { text: text, ..self }
    }

    pub open spec fn with_listener(self) -> CheckBoxView {
        CheckBoxView { has_listener: true, ..self }
    }

    pub open spec fn with_observer(self) -> CheckBoxView {
        CheckBoxView { has_observer: true, ..self }
    }

    pub open spec fn with_stretch(self) -> CheckBoxView {
        CheckBoxView { stretch: "stretch"@, ..self }
    }
}

/// The class token that both inner elements carry while the box is checked.
pub open spec fn decoration(checked: bool) -> Seq<char> {
    if checked {
        "checked"@
    } else {
        ""@
    }
}

/// The markup of a checkbox in state `v`.
pub open spec fn markup(v: CheckBoxView) -> Seq<char> {
    "<div class=\"checkbox "@ + v.stretch + "\" onmousedown=\""@ + change_js_of(v.name, "''"@)
        + "\"><div class=\"checkbox-outer "@ + decoration(v.checked)
        + "\"><div class=\"checkbox-inner "@ + decoration(v.checked) + "\"></div></div><label>"@
        + v.text + "</label></div>"@
}

/// The state after a `Change` from `source` carrying `value`: the box named
/// `source` flips and hands `value` to its listener, if it has one; any other
/// box stays as it is.
pub open spec fn after_change(v: CheckBoxView, source: Seq<char>, value: Seq<char>) -> CheckBoxView {
    if source == v.name {
        CheckBoxView {
            checked: !v.checked,
            delivered: if v.has_listener {
                v.delivered.push(value)
            } else {
                v.delivered
            },
            ..v
        }
    } else {
        v
    }
}

/// The state after taking the fields of snapshot `m`, or why `m` cannot be taken.
pub open spec fn refreshed(v: CheckBoxView, m: Map<Seq<char>, Seq<char>>) -> Result<CheckBoxView, ObserverDataError> {
    if !m.contains_key("text"@) {
        Err(ObserverDataError::MissingField(SnapshotField::Text))
    } else if !m.contains_key("checked"@) {
        Err(ObserverDataError::MissingField(SnapshotField::Checked))
    } else {
        match flag_of(m["checked"@]) {
            None => Err(ObserverDataError::InvalidValue(SnapshotField::Checked)),
            Some(c) => Ok(v.with_text(m["text"@]).with_checked(c)),
        }
    }
}

/// Taking snapshot `m` in state `before` leads to state `after` and result `r`:
/// the refreshed state on success, the old state and the error otherwise.
pub open spec fn takes_snapshot(
    before: CheckBoxView,
    after: CheckBoxView,
    r: Result<(), ObserverDataError>,
    m: Map<Seq<char>, Seq<char>>,
) -> bool {
    match refreshed(before, m) {
        Ok(nv) => r is Ok && after == nv,
        Err(e) => r == Err::<(), ObserverDataError>(e) && after == before,
    }
}

/// A refresh in state `before` leads to state `after` and result `r`: with no
/// observer nothing happens; with one, some snapshot of it was taken.
pub open spec fn pulled(before: CheckBoxView, after: CheckBoxView, r: Result<(), ObserverDataError>) -> bool {
    if before.has_observer {
        exists|m: Map<Seq<char>, Seq<char>>| #[trigger] takes_snapshot(before, after, r, m)
    } else {
        r is Ok && after == before
    }
}

/// A `Change` addressed to the box flips its checked flag once and leaves its
/// name, label and stretch as they were.
pub proof fn lemma_change_toggles(v: CheckBoxView, value: Seq<char>)
    ensures
        after_change(v, v.name, value).checked == !v.checked,
        after_change(v, v.name, value).text == v.text,
        after_change(v, v.name, value).name == v.name,
        after_change(v, v.name, value).stretch == v.stretch,
{
}

/// A `Change` addressed to another name leaves the box exactly as it was.
pub proof fn lemma_foreign_change_is_inert(v: CheckBoxView, source: Seq<char>, value: Seq<char>)
    requires
        source != v.name,
    ensures
        after_change(v, source, value) == v,
{
}

/// A `Change` hands its value, unmodified, to the listener exactly once when it
/// is addressed to the box and the box has a listener, and never otherwise.
pub proof fn lemma_change_notifies_once(v: CheckBoxView, source: Seq<char>, value: Seq<char>)
    ensures
        source == v.name && v.has_listener ==> after_change(v, source, value).delivered
            == v.delivered.push(value),
        !(source == v.name && v.has_listener) ==> after_change(v, source, value).delivered
            == v.delivered,
{
}

/// A snapshot with a label and a readable flag sets the label and the flag to
/// exactly its values and changes nothing else.
pub proof fn lemma_snapshot_sets_fields(v: CheckBoxView, m: Map<Seq<char>, Seq<char>>, c: bool)
    requires
        m.contains_key("text"@),
        m.contains_key("checked"@),
        flag_of(m["checked"@]) == Some(c),
    ensures
        refreshed(v, m) == Ok::<CheckBoxView, ObserverDataError>(
            (CheckBoxView { text: m["text"@], checked: c, ..v }),
        ),
{
}

/// Without an observer a refresh changes nothing and succeeds.
pub proof fn lemma_refresh_without_observer(
    before: CheckBoxView,
    after: CheckBoxView,
    r: Result<(), ObserverDataError>,
)
    requires
        !before.has_observer,
        pulled(before, after, r),
    ensures
        after == before,
        r is Ok,
{
}

/// The markup depends on the name, the flag, the label and the stretch alone,
/// and the decoration token is `checked` exactly when the box is checked.
pub proof fn lemma_markup_reflects_state(a: CheckBoxView, b: CheckBoxView)
    requires
        a.name == b.name,
        a.checked == b.checked,
        a.text == b.text,
        a.stretch == b.stretch,
    ensures
        markup(a) == markup(b),
        (decoration(a.checked) == "checked"@) == a.checked,
        !a.checked ==> decoration(a.checked).len() == 0,
{
    reveal_strlit("checked");
    reveal_strlit("");
}

/// Setting the flag and the label gives the same box in either order.
pub proof fn lemma_builder_order(v: CheckBoxView, c: bool, t: Seq<char>)
    ensures
        v.with_checked(c).with_text(t) == v.with_text(t).with_checked(c),
{
}

/// A togglable checkbox with a label.
pub struct CheckBox {
    name: String,
    checked: bool,
    text: String,
    listener: Option<Box<dyn Listener>>,
    observer: Option<Box<dyn Observer>>,
    stretch: String,
    delivered: Ghost<Seq<Seq<char>>>,
}

impl View for CheckBox {
    type V = CheckBoxView;

    closed spec fn view(&self) -> CheckBoxView {
        CheckBoxView {
            name: self.name@,
            checked: self.checked,
            text: self.text@,
            stretch: self.stretch@,
            has_listener: self.listener is Some,
            has_observer: self.observer is Some,
            delivered: self.delivered@,
        }
    }
}

impl CheckBox {
    /// A checkbox named `name`: unchecked, labelled `CheckBox`, with no
    /// listener, no observer and no stretch.
    pub fn new(name: &str) -> (r: CheckBox)
        ensures
            r@ == (CheckBoxView {
                name: name@,
                checked: false,
                text: "CheckBox"@,
                stretch: ""@,
                has_listener: false,
                has_observer: false,
                delivered: Seq::empty(),
            }),
    {
        CheckBox {
            name: String::from_str(name),
            checked: false,
            text: String::from_str("CheckBox"),
            listener: None,
            observer: None,
            stretch: String::from_str(""),
            delivered: Ghost(Seq::empty()),
        }
    }

    /// Sets the checked flag.
    pub fn checked(self, checked: bool) -> (r: CheckBox)
        ensures
            r@ == self@.with_checked(checked),
    {
        CheckBox { checked: checked, ..self }
    }

    /// Sets the label.
    pub fn text(self, text: &str) -> (r: CheckBox)
        ensures
            r@ == self@.with_text(text@),
    {
        CheckBox { text: String::from_str(text), ..self }
    }

    /// Sets the listener.
    pub fn listener(self, listener: Box<dyn Listener>) -> (r: CheckBox)
        ensures
            r@ == self@.with_listener(),
    {
        CheckBox { listener: Some(listener), ..self }
    }

    /// Sets the observer.
    pub fn observer(self, observer: Box<dyn Observer>) -> (r: CheckBox)
        ensures
            r@ == self@.with_observer(),
    {
        CheckBox { observer: Some(observer), ..self }
    }

    /// Makes the box stretch.
    pub fn stretch(self) -> (r: CheckBox)
        ensures
            r@ == self@.with_stretch(),
    {
        CheckBox { stretch: String::from_str("stretch"), ..self }
    }

    /// The name that events address the box by.
    pub fn name(&self) -> (r: &str)
        ensures
            r@ == self@.name,
    {
        self.name.as_str()
    }

    /// Whether the box is checked.
    pub fn is_checked(&self) -> (r: bool)
        ensures
            r == self@.checked,
    {
        self.checked
    }

    /// The label.
    pub fn label(&self) -> (r: &str)
        ensures
            r@ == self@.text,
    {
        self.text.as_str()
    }

    /// The markup of the box: a container with the `checkbox` class and the
    /// stretch token, bound to send a `Change` from the box's name with an
    /// empty value; two nested elements that carry `checked` while the box is
    /// checked; and the label.
    pub fn eval(&self) -> (r: String)
        ensures
            r@ == markup(self@),
    {
        let deco: &str = if self.checked { "checked" } else { "" };
        let script = Event::change_js(self.name.as_str(), "''");
        let mut s = String::from_str("<div class=\"checkbox ");
        s.append(self.stretch.as_str());
        s.append("\" onmousedown=\"");
        s.append(script.as_str());
        s.append("\"><div class=\"checkbox-outer ");
        s.append(deco);
        s.append("\"><div class=\"checkbox-inner ");
        s.append(deco);
        s.append("\"></div></div><label>");
        s.append(self.text.as_str());
        s.append("</label></div>");
        s
    }

    /// Takes the `text` and `checked` fields of `snapshot`. On an error the
    /// box is left as it was.
    pub fn apply_snapshot(&mut self, snapshot: &Snapshot) -> (r: Result<(), ObserverDataError>)
        ensures
            takes_snapshot(old(self)@, final(self)@, r, snapshot@),
    {
        let text = match snapshot.get("text") {
            None => {
                return Err(ObserverDataError::MissingField(SnapshotField::Text));
            },
            Some(t) => t,
        };
        let flag = match snapshot.get("checked") {
            None => {
                return Err(ObserverDataError::MissingField(SnapshotField::Checked));
            },
            Some(c) => c,
        };
        match parse_flag(flag) {
            None => Err(ObserverDataError::InvalidValue(SnapshotField::Checked)),
            Some(c) => {
                self.text = text.clone();
                self.checked = c;
                Ok(())
            },
        }
    }

    /// Refreshes the box from its observer; with none, does nothing.
    pub fn on_update(&mut self) -> (r: Result<(), ObserverDataError>)
        ensures
            pulled(old(self)@, final(self)@, r),
    {
        let snapshot = match &self.observer {
            None => {
                return Ok(());
            },
            Some(observer) => observer.observe(),
        };
        let r = self.apply_snapshot(&snapshot);
        assert(takes_snapshot(old(self)@, self@, r, snapshot@));
        r
    }

    /// Reacts to one event: `Update` refreshes from the observer; a `Change`
    /// addressed to this box flips it and hands the event's value to the
    /// listener; every other event is ignored.
    pub fn trigger(&mut self, event: &Event) -> (r: Result<(), ObserverDataError>)
        ensures
            match event {
                Event::Update => pulled(old(self)@, final(self)@, r),
                Event::Change { source, value } => {
                    &&& r is Ok
                    &&& final(self)@ == after_change(old(self)@, source@, value@)
                },
                Event::Click { .. } => r is Ok && final(self)@ == old(self)@,
            },
    {
        match event {
            Event::Update => self.on_update(),
            Event::Change { source, value } => {
                if *source == self.name {
                    self.checked = !self.checked;
                    match &self.listener {
                        None => {},
                        Some(listener) => {
                            listener.on_change(value.as_str());
                            self.delivered = Ghost(self.delivered@.push(value@));
                        },
                    }
                }
                Ok(())
            },
            Event::Click { .. } => Ok(()),
        }
    }
}

impl Widget for CheckBox {
    fn eval(&self) -> String {
        CheckBox::eval(self)
    }

    fn trigger(&mut self, event: &Event) -> Result<(), ObserverDataError> {
        CheckBox::trigger(self, event)
    }

    fn on_update(&mut self) -> Result<(), ObserverDataError> {
        CheckBox::on_update(self)
    }
}

} // verus!
