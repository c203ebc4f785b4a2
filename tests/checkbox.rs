use neutrino::{CheckBox, Event, Listener, Observer, ObserverDataError, Snapshot, SnapshotField, Widget};
use std::cell::RefCell;
use std::rc::Rc;

struct Recorder {
    changes: Rc<RefCell<Vec<String>>>,
}

impl Listener for Recorder {
    fn on_change(&self, value: &str) {
        self.changes.borrow_mut().push(value.to_string());
    }
}

struct Fixed {
    fields: Vec<(&'static str, &'static str)>,
}

impl Observer for Fixed {
    fn observe(&self) -> Snapshot {
        let mut s = Snapshot::new();
        for (k, v) in &self.fields {
            s.insert(k, v);
        }
        s
    }
}

fn observed(fields: Vec<(&'static str, &'static str)>) -> CheckBox {
    CheckBox::new("cb1").observer(Box::new(Fixed { fields }))
}

fn recorded() -> (CheckBox, Rc<RefCell<Vec<String>>>) {
    let log = Rc::new(RefCell::new(Vec::new()));
    let w = CheckBox::new("cb1").listener(Box::new(Recorder { changes: log.clone() }));
    (w, log)
}

#[test]
fn new_has_defaults() {
    let w = CheckBox::new("cb1");
    assert_eq!(w.name(), "cb1");
    assert!(!w.is_checked());
    assert_eq!(w.label(), "CheckBox");
}

#[test]
fn fresh_box_renders_without_checked_token() {
    let w = CheckBox::new("cb1");
    let html = w.eval();
    assert_eq!(
        html,
        "<div class=\"checkbox \" onmousedown=\"emit('Change','cb1','')\"><div class=\"checkbox-outer \"><div class=\"checkbox-inner \"></div></div><label>CheckBox</label></div>"
    );
    assert!(!html.contains("checkbox-outer checked"));
    assert!(!html.contains("checkbox-inner checked"));
}

#[test]
fn matching_change_checks_and_renders_token() {
    let mut w = CheckBox::new("cb1");
    assert_eq!(w.trigger(&Event::change("cb1", "")), Ok(()));
    assert!(w.is_checked());
    let html = w.eval();
    assert!(html.contains("<div class=\"checkbox-outer checked\">"));
    assert!(html.contains("<div class=\"checkbox-inner checked\">"));
}

#[test]
fn matching_change_toggles_and_keeps_label() {
    let mut w = CheckBox::new("cb1").text("label").checked(true);
    w.trigger(&Event::change("cb1", "v")).unwrap();
    assert!(!w.is_checked());
    assert_eq!(w.label(), "label");
    w.trigger(&Event::change("cb1", "v")).unwrap();
    assert!(w.is_checked());
    assert_eq!(w.label(), "label");
}

#[test]
fn foreign_change_is_ignored() {
    let (mut w, log) = recorded();
    let before = w.eval();
    assert_eq!(w.trigger(&Event::change("cb2", "v")), Ok(()));
    assert!(!w.is_checked());
    assert_eq!(w.eval(), before);
    assert!(log.borrow().is_empty());
}

#[test]
fn click_event_is_ignored() {
    let mut w = CheckBox::new("cb1");
    let click = Event::Click { source: "cb1".to_string() };
    assert_eq!(w.trigger(&click), Ok(()));
    assert!(!w.is_checked());
}

#[test]
fn update_takes_observer_values() {
    let mut w = observed(vec![("text", "Yes"), ("checked", "true")]);
    assert_eq!(w.on_update(), Ok(()));
    assert_eq!(w.label(), "Yes");
    assert!(w.is_checked());
}

#[test]
fn update_event_refreshes_from_observer() {
    let mut w = observed(vec![("checked", "true"), ("text", "Yes")]).checked(true);
    assert_eq!(w.trigger(&Event::Update), Ok(()));
    assert!(w.is_checked());
    let mut w = observed(vec![("text", "No"), ("checked", "false")]).checked(true);
    assert_eq!(w.trigger(&Event::Update), Ok(()));
    assert_eq!(w.label(), "No");
    assert!(!w.is_checked());
}

#[test]
fn update_without_observer_does_nothing() {
    let mut w = CheckBox::new("cb1").text("x").checked(true);
    assert_eq!(w.on_update(), Ok(()));
    assert_eq!(w.label(), "x");
    assert!(w.is_checked());
}

#[test]
fn missing_checked_field_fails_and_keeps_state() {
    let mut w = observed(vec![("text", "Yes")]);
    assert_eq!(w.on_update(), Err(ObserverDataError::MissingField(SnapshotField::Checked)));
    assert_eq!(w.label(), "CheckBox");
    assert!(!w.is_checked());
}

#[test]
fn missing_text_field_fails() {
    let mut w = observed(vec![("checked", "true")]);
    assert_eq!(w.on_update(), Err(ObserverDataError::MissingField(SnapshotField::Text)));
    assert!(!w.is_checked());
}

#[test]
fn unreadable_flag_fails_and_keeps_state() {
    let mut w = observed(vec![("text", "Yes"), ("checked", "yes")]);
    assert_eq!(w.on_update(), Err(ObserverDataError::InvalidValue(SnapshotField::Checked)));
    assert_eq!(w.label(), "CheckBox");
    let mut w = observed(vec![("text", "Yes"), ("checked", "True")]);
    assert_eq!(w.on_update(), Err(ObserverDataError::InvalidValue(SnapshotField::Checked)));
}

#[test]
fn listener_gets_value_once() {
    let (mut w, log) = recorded();
    w.trigger(&Event::change("cb1", "v")).unwrap();
    assert_eq!(*log.borrow(), vec!["v".to_string()]);
    w.trigger(&Event::change("cb2", "w")).unwrap();
    w.trigger(&Event::Update).unwrap();
    assert_eq!(*log.borrow(), vec!["v".to_string()]);
    w.trigger(&Event::change("cb1", "u")).unwrap();
    assert_eq!(*log.borrow(), vec!["v".to_string(), "u".to_string()]);
}

#[test]
fn eval_is_repeatable() {
    let w = CheckBox::new("cb1").text("x").checked(true).stretch();
    assert_eq!(w.eval(), w.eval());
}

#[test]
fn builder_order_does_not_matter() {
    let a = CheckBox::new("cb1").checked(true).text("x");
    let b = CheckBox::new("cb1").text("x").checked(true);
    assert_eq!(a.eval(), b.eval());
    assert_eq!(a.is_checked(), b.is_checked());
    assert_eq!(a.label(), b.label());
    assert_eq!(a.name(), b.name());
}

#[test]
fn stretch_adds_class_token() {
    let w = CheckBox::new("cb1").stretch();
    assert!(w.eval().starts_with("<div class=\"checkbox stretch\" onmousedown="));
}

#[test]
fn checkbox_works_as_widget() {
    let mut w: Box<dyn Widget> = Box::new(CheckBox::new("cb1").text("t"));
    w.trigger(&Event::change("cb1", "")).unwrap();
    assert!(w.eval().contains("checkbox-inner checked"));
    assert!(w.eval().contains("<label>t</label>"));
    assert_eq!(w.on_update(), Ok(()));
}
