use neutrino::observer::parse_flag;
use neutrino::{Event, Snapshot};

#[test]
fn change_js_names_source_and_value() {
    assert_eq!(Event::change_js("cb1", "''"), "emit('Change','cb1','')");
    assert_eq!(Event::change_js("a", "this.value"), "emit('Change','a',this.value)");
}

#[test]
fn change_builds_change_event() {
    match Event::change("cb1", "v") {
        Event::Change { source, value } => {
            assert_eq!(source, "cb1");
            assert_eq!(value, "v");
        }
        _ => panic!("not a change"),
    }
}

#[test]
fn snapshot_get_and_replace() {
    let mut s = Snapshot::new();
    assert_eq!(s.get("text"), None);
    s.insert("text", "a");
    s.insert("checked", "true");
    assert_eq!(s.get("text").map(|v| v.as_str()), Some("a"));
    s.insert("text", "b");
    assert_eq!(s.get("text").map(|v| v.as_str()), Some("b"));
    assert_eq!(s.get("checked").map(|v| v.as_str()), Some("true"));
    assert_eq!(s.get("other"), None);
}

#[test]
fn parse_flag_reads_literals_only() {
    assert_eq!(parse_flag(&"true".to_string()), Some(true));
    assert_eq!(parse_flag(&"false".to_string()), Some(false));
    assert_eq!(parse_flag(&"TRUE".to_string()), None);
    assert_eq!(parse_flag(&"".to_string()), None);
    assert_eq!(parse_flag(&" true".to_string()), None);
}
