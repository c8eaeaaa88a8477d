use screencrab::response::Response;

fn s(x: &str) -> Option<String> {
    Some(x.to_string())
}

#[test]
fn response_with_message_is_success() {
    let r = Response::new(s("saved"), None);
    assert!(r.success());
    assert!(!r.failure());
    assert_eq!(r.response(), s("saved"));
    assert_eq!(r.error(), None);
}

#[test]
fn response_with_error_is_failure() {
    let r = Response::new(None, s("bad"));
    assert!(!r.success());
    assert!(r.failure());
    assert_eq!(r.response(), None);
    assert_eq!(r.error(), s("bad"));
}

#[test]
fn response_with_both_is_failure_and_shows_error() {
    let r = Response::new(s("saved"), s("bad"));
    assert!(r.failure());
    assert_eq!(r.response(), None);
    assert_eq!(r.error(), s("bad"));
}

#[test]
fn response_with_neither_shows_nothing() {
    let r = Response::new(None, None);
    assert!(r.failure());
    assert_eq!(r.response(), None);
    assert_eq!(r.error(), None);
}

#[test]
fn response_message_and_error_never_both_shown() {
    for (m, e) in [(s("a"), None), (None, s("b")), (s("a"), s("b")), (None, None)] {
        let r = Response::new(m, e);
        assert!(!(r.response().is_some() && r.error().is_some()));
        assert_ne!(r.success(), r.failure());
    }
}
