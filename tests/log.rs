use std::io;

use async_listen::error::{AcceptError, AcceptErrorKind};
use async_listen::error_hint;
use async_listen::log::{needs_warning, LogWarnings};

fn accept_error(e: &io::Error) -> AcceptError {
    let kind = match e.kind() {
        io::ErrorKind::ConnectionRefused => AcceptErrorKind::ConnectionRefused,
        io::ErrorKind::ConnectionAborted => AcceptErrorKind::ConnectionAborted,
        io::ErrorKind::ConnectionReset => AcceptErrorKind::ConnectionReset,
        _ => AcceptErrorKind::Other,
    };
    AcceptError { kind, raw_os_error: e.raw_os_error() }
}

fn collect<S, F>(mut stream: LogWarnings<S, F>) -> Vec<Result<u32, io::Error>>
where
    S: Iterator<Item = Result<u32, io::Error>>,
    F: FnMut(&io::Error),
{
    let mut result = Vec::new();
    while let Some(item) = stream.get_mut().next() {
        let converted = item.as_ref().map(|v| *v).map_err(accept_error);
        if needs_warning(&converted) {
            if let Err(e) = &item {
                (stream.logger_mut())(e);
            }
        }
        result.push(item);
    }
    result
}

#[test]
fn test_log() {
    let s = vec![
        Ok(1u32),
        Err(io::ErrorKind::ConnectionReset.into()),
        Ok(2),
        Err(io::ErrorKind::Other.into()),
        Ok(3),
    ];
    let mut visited = false;
    let stream = LogWarnings::new(s.into_iter(), |e: &io::Error| {
        assert_eq!(e.kind(), io::ErrorKind::Other);
        visited = true;
    });
    let result = collect(stream);
    assert_eq!(result.len(), 5);
    assert!(visited);
}

#[test]
fn test_hint() {
    let e = io::Error::from_raw_os_error(24);
    assert_eq!(
        format!("Error: {}. {}", e, error_hint(&accept_error(&e)).to_text()),
        "Error: Too many open files (os error 24). \
         Increase per-process open file limit \
         https://bit.ly/async-err#EMFILE");
    let e = io::Error::from_raw_os_error(23);
    assert_eq!(
        format!("Error: {}. {}", e, error_hint(&accept_error(&e)).to_text()),
        "Error: Too many open files in system (os error 23). \
         Increase system open file limit \
         https://bit.ly/async-err#ENFILE");
    // an error of kind Other without an OS code; std words the Display of
    // `ErrorKind::Other.into()` differently from one release to the next, so
    // the message is given here as the older releases printed it
    let e = io::Error::new(io::ErrorKind::Other, "other os error");
    assert_eq!(
        format!("Error: {}. {}", e, error_hint(&accept_error(&e)).to_text()),
        "Error: other os error. ");
}

#[test]
fn warnings_only_for_non_transient_failures() {
    let ok: Result<u8, AcceptError> = Ok(1);
    assert!(!needs_warning(&ok));
    let reset: Result<u8, AcceptError> = Err(AcceptError::from_kind(AcceptErrorKind::ConnectionReset));
    assert!(!needs_warning(&reset));
    let refused: Result<u8, AcceptError> = Err(AcceptError::from_kind(AcceptErrorKind::ConnectionRefused));
    assert!(!needs_warning(&refused));
    let aborted: Result<u8, AcceptError> = Err(AcceptError::from_kind(AcceptErrorKind::ConnectionAborted));
    assert!(!needs_warning(&aborted));
    let other: Result<u8, AcceptError> = Err(AcceptError::from_raw_os_error(AcceptErrorKind::Other, 23));
    assert!(needs_warning(&other));
}

#[test]
fn log_warnings_gives_back_its_stream() {
    let mut w = LogWarnings::new(vec![1u8, 2, 3], |_: &io::Error| {});
    assert_eq!(w.get_ref(), &vec![1u8, 2, 3]);
    w.get_mut().push(4);
    assert_eq!(w.into_inner(), vec![1u8, 2, 3, 4]);
}
