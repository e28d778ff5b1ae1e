use burz::filter::{all, none, Filter, FilterExt};
use burz::ws::event::Event;

fn event(text: &str) -> Event {
    Event { payload: text.as_bytes().to_vec() }
}

#[test]
fn all_passes_every_event() {
    assert!(all().filter_event(&event("{}")));
    assert!(all().filter_event(&event("{\"content\":\"hi\"}")));
}

#[test]
fn none_rejects_every_event() {
    assert!(!none().filter_event(&event("{}")));
}

#[test]
fn not_inverts() {
    assert!(!all().not().filter_event(&event("{}")));
    assert!(none().not().filter_event(&event("{}")));
}

#[test]
fn and_needs_both() {
    let e = event("{}");
    assert!(all().and(all()).filter_event(&e));
    assert!(!all().and(none()).filter_event(&e));
    assert!(!none().and(all()).filter_event(&e));
    assert!(!none().and(none()).filter_event(&e));
}

#[test]
fn or_needs_one() {
    let e = event("{}");
    assert!(all().or(all()).filter_event(&e));
    assert!(all().or(none()).filter_event(&e));
    assert!(none().or(all()).filter_event(&e));
    assert!(!none().or(none()).filter_event(&e));
}
