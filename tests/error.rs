use async_listen::error::{error_hint, is_transient_error, AcceptError, AcceptErrorKind, EMFILE, ENFILE};

#[test]
fn transient_kinds_are_per_connection() {
    assert!(is_transient_error(&AcceptError::from_kind(AcceptErrorKind::ConnectionRefused)));
    assert!(is_transient_error(&AcceptError::from_kind(AcceptErrorKind::ConnectionAborted)));
    assert!(is_transient_error(&AcceptError::from_kind(AcceptErrorKind::ConnectionReset)));
    assert!(!is_transient_error(&AcceptError::from_kind(AcceptErrorKind::Other)));
}

#[test]
fn resource_exhaustion_is_not_transient() {
    let e = AcceptError::from_raw_os_error(AcceptErrorKind::Other, EMFILE);
    assert!(!is_transient_error(&e));
}

#[test]
fn hint_for_emfile() {
    let h = error_hint(&AcceptError::from_raw_os_error(AcceptErrorKind::Other, 24));
    assert!(!h.is_empty());
    assert_eq!(h.hint_text(), "Increase per-process open file limit");
    assert_eq!(h.link_hash(), "EMFILE");
    assert_eq!(h.default_link_base(), "https://bit.ly/async-err");
    assert_eq!(
        h.to_text(),
        "Increase per-process open file limit https://bit.ly/async-err#EMFILE"
    );
}

#[test]
fn hint_for_enfile() {
    let h = error_hint(&AcceptError::from_raw_os_error(AcceptErrorKind::Other, ENFILE));
    assert!(!h.is_empty());
    assert_eq!(h.hint_text(), "Increase system open file limit");
    assert_eq!(h.link_hash(), "ENFILE");
    assert_eq!(
        h.to_text(),
        "Increase system open file limit https://bit.ly/async-err#ENFILE"
    );
}

#[test]
fn no_hint_for_unknown_code() {
    let h = error_hint(&AcceptError::from_raw_os_error(AcceptErrorKind::Other, 5));
    assert!(h.is_empty());
    assert_eq!(h.hint_text(), "");
    assert_eq!(h.link_hash(), "");
    assert_eq!(h.to_text(), "");
}

#[test]
fn no_hint_without_code() {
    let h = error_hint(&AcceptError::from_kind(AcceptErrorKind::ConnectionReset));
    assert!(h.is_empty());
    assert_eq!(h.to_text(), "");
    assert_eq!(h.default_link_base(), "https://bit.ly/async-err");
}
