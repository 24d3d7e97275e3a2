use std::io::{Error, ErrorKind};
use std::sync::Arc;
use terminal_trx::cache::{cached_result, store_outcome};
use terminal_trx::resolve::{select_candidate, unix_origin, Origin};
use terminal_trx::{shared_io_error, PoisonError, StdioFlags};

#[test]
fn shared_os_error_keeps_code_and_kind() {
    let e = Arc::new(Error::from_raw_os_error(libc::ENOENT));
    let copy = shared_io_error(&e);
    assert_eq!(copy.raw_os_error(), Some(libc::ENOENT));
    assert_eq!(copy.kind(), ErrorKind::NotFound);
}

#[test]
fn shared_custom_error_keeps_kind_and_message() {
    let e = Arc::new(Error::new(ErrorKind::InvalidData, "bad bytes"));
    let copy = shared_io_error(&e);
    assert_eq!(copy.raw_os_error(), None);
    assert_eq!(copy.kind(), ErrorKind::InvalidData);
    assert_eq!(copy.to_string(), "bad bytes");
    assert_eq!(Arc::strong_count(&e), 2);
}

#[test]
fn stored_failure_reads_back_equivalent_twice() {
    let stored = store_outcome::<u8>(Err(Error::from_raw_os_error(libc::ENXIO)));
    let first = cached_result(&stored).unwrap_err();
    let second = cached_result(&stored).unwrap_err();
    assert_eq!(first.raw_os_error(), Some(libc::ENXIO));
    assert_eq!(second.raw_os_error(), Some(libc::ENXIO));
    assert_eq!(first.kind(), second.kind());
}

#[test]
fn stored_custom_failure_reads_back_same_kind() {
    let stored = store_outcome::<u8>(Err(Error::new(ErrorKind::Unsupported, "no backend")));
    let first = cached_result(&stored).unwrap_err();
    let second = cached_result(&stored).unwrap_err();
    assert_eq!(first.kind(), ErrorKind::Unsupported);
    assert_eq!(second.kind(), ErrorKind::Unsupported);
    assert_eq!(first.raw_os_error(), None);
    assert_eq!(second.to_string(), "no backend");
}

#[test]
fn stored_success_reads_back_same_value() {
    let stored = store_outcome(Ok(41u32));
    let first = cached_result(&stored).unwrap();
    let second = cached_result(&stored).unwrap();
    assert_eq!(*first, 41);
    assert!(std::ptr::eq(first, second));
}

#[test]
fn poison_error_as_io_error() {
    let p = PoisonError::default();
    assert_eq!(p.message(), "poisoned lock: another task failed inside");
    let e = p.into_io_error();
    assert_eq!(e.kind(), ErrorKind::Other);
    assert_eq!(e.raw_os_error(), None);
    assert_eq!(e.to_string(), "poisoned lock: another task failed inside");
    let f: Error = PoisonError::new().into();
    assert_eq!(f.kind(), ErrorKind::Other);
}

#[test]
fn no_terminal_anywhere_fails_the_same_way_twice() {
    let none = StdioFlags { stdin: false, stdout: false, stderr: false };
    let candidate = select_candidate(&none);
    assert_eq!(candidate, None);
    assert_eq!(unix_origin(candidate, false), Origin::Device);
    // Opening the controlling terminal fails: the process has none.
    let stored = store_outcome::<u8>(Err(Error::from_raw_os_error(libc::ENXIO)));
    let first = cached_result(&stored).unwrap_err();
    let second = cached_result(&stored).unwrap_err();
    assert_eq!(first.kind(), second.kind());
    assert_eq!(first.raw_os_error(), Some(libc::ENXIO));
    assert_eq!(second.raw_os_error(), Some(libc::ENXIO));
}
