use terminal_trx::lock::stdio_lock_order;
use terminal_trx::resolve::{
    aliases_of, console_input_name, console_screen_name, controlling_terminal_path,
    input_buffer_origin, is_read_write, is_same_file, reuse_or_reopen, screen_buffer_origin,
    select_candidate, unix_origin, FileIdentity, Origin, Resolution, StdioIdentities,
};
use terminal_trx::{StdStream, StdioFlags};

fn flags(stdin: bool, stdout: bool, stderr: bool) -> StdioFlags {
    StdioFlags { stdin, stdout, stderr }
}

fn id(fd: i32, dev: u64, ino: u64) -> FileIdentity {
    FileIdentity { fd, dev, ino }
}

#[test]
fn candidate_is_none_without_terminal() {
    assert_eq!(select_candidate(&flags(false, false, false)), None);
}

#[test]
fn candidate_prefers_stderr() {
    assert_eq!(select_candidate(&flags(true, true, true)), Some(StdStream::Stderr));
    assert_eq!(select_candidate(&flags(false, false, true)), Some(StdStream::Stderr));
}

#[test]
fn candidate_tests_stdin_before_stdout() {
    assert_eq!(select_candidate(&flags(true, true, false)), Some(StdStream::Stdin));
    assert_eq!(select_candidate(&flags(false, true, false)), Some(StdStream::Stdout));
}

#[test]
fn read_write_status_flags() {
    assert!(is_read_write(libc::O_RDWR, libc::O_RDWR));
    assert!(is_read_write(libc::O_RDWR | libc::O_NONBLOCK, libc::O_RDWR));
    assert!(!is_read_write(libc::O_RDONLY, libc::O_RDWR));
    assert!(!is_read_write(libc::O_WRONLY, libc::O_RDWR));
    assert!(is_read_write(2, 2));
    assert!(!is_read_write(1, 2));
}

#[test]
fn read_write_stream_is_borrowed() {
    let origin = reuse_or_reopen(StdStream::Stderr, true);
    assert_eq!(origin, Origin::Borrowed(StdStream::Stderr));
    assert!(!origin.is_owned());
}

#[test]
fn single_direction_stream_is_reopened() {
    let origin = reuse_or_reopen(StdStream::Stdin, false);
    assert_eq!(origin, Origin::Reopened(StdStream::Stdin));
    assert!(origin.is_owned());
}

#[test]
fn no_candidate_opens_controlling_terminal() {
    assert_eq!(unix_origin(None, false), Origin::Device);
    assert_eq!(unix_origin(None, true), Origin::Device);
    assert_eq!(unix_origin(Some(StdStream::Stdout), true), Origin::Borrowed(StdStream::Stdout));
    assert_eq!(unix_origin(Some(StdStream::Stdout), false), Origin::Reopened(StdStream::Stdout));
    assert_eq!(controlling_terminal_path(), "/dev/tty");
}

#[test]
fn reuse_path_opens_no_second_descriptor() {
    // A pseudo-terminal on descriptor 2, open for reading and writing.
    let tty = flags(false, false, true);
    let candidate = select_candidate(&tty);
    assert_eq!(candidate, Some(StdStream::Stderr));
    let origin = unix_origin(candidate, is_read_write(libc::O_RDWR, libc::O_RDWR));
    assert_eq!(origin, Origin::Borrowed(StdStream::Stderr));
    let stdio = StdioIdentities { stdin: id(0, 5, 10), stdout: id(1, 5, 11), stderr: id(2, 7, 3) };
    let resolution = Resolution::borrowed(StdStream::Stderr, &stdio);
    assert!(!resolution.owns_handle());
    assert_eq!(resolution.aliases, flags(false, false, true));
}

#[test]
fn console_buffers_on_windows() {
    assert_eq!(input_buffer_origin(&flags(true, false, false)), Origin::Borrowed(StdStream::Stdin));
    assert_eq!(input_buffer_origin(&flags(false, true, true)), Origin::Device);
    assert_eq!(screen_buffer_origin(&flags(true, true, true)), Origin::Borrowed(StdStream::Stderr));
    assert_eq!(screen_buffer_origin(&flags(true, true, false)), Origin::Borrowed(StdStream::Stdout));
    assert_eq!(screen_buffer_origin(&flags(true, false, false)), Origin::Device);
    assert_eq!(console_input_name(), "CONIN$");
    assert_eq!(console_screen_name(), "CONOUT$");
}

#[test]
fn same_file_by_descriptor_or_inode() {
    assert!(is_same_file(&id(2, 1, 1), &id(2, 9, 9)));
    assert!(is_same_file(&id(3, 5, 12), &id(0, 5, 12)));
    assert!(!is_same_file(&id(3, 5, 12), &id(0, 5, 13)));
    assert!(!is_same_file(&id(3, 5, 12), &id(0, 6, 12)));
}

#[test]
fn aliases_follow_device_and_inode() {
    let stdio = StdioIdentities { stdin: id(0, 5, 12), stdout: id(1, 8, 1), stderr: id(2, 5, 12) };
    assert_eq!(aliases_of(&id(3, 5, 12), &stdio), flags(true, false, true));
    assert_eq!(aliases_of(&id(1, 0, 0), &stdio), flags(false, true, false));
}

#[test]
fn reopened_terminal_aliases_same_device() {
    let stdio = StdioIdentities { stdin: id(0, 5, 12), stdout: id(1, 5, 12), stderr: id(2, 9, 9) };
    let resolution = Resolution::reopened(StdStream::Stdin, &id(3, 5, 12), &stdio);
    assert_eq!(resolution.origin, Origin::Reopened(StdStream::Stdin));
    assert!(resolution.owns_handle());
    assert_eq!(resolution.aliases, flags(true, true, false));
}

#[test]
fn controlling_terminal_aliases_nothing() {
    let resolution = Resolution::controlling();
    assert_eq!(resolution.origin, Origin::Device);
    assert!(resolution.owns_handle());
    assert!(resolution.aliases.is_empty());
    assert!(StdioFlags::none().is_empty());
    assert!(!flags(false, true, false).is_empty());
}

#[test]
fn lock_order_of_aliased_streams() {
    assert_eq!(
        stdio_lock_order(&flags(true, true, true)),
        vec![StdStream::Stdin, StdStream::Stdout, StdStream::Stderr]
    );
    assert_eq!(stdio_lock_order(&flags(false, true, true)), vec![StdStream::Stdout, StdStream::Stderr]);
    assert_eq!(stdio_lock_order(&flags(true, false, false)), vec![StdStream::Stdin]);
    assert!(stdio_lock_order(&flags(false, false, false)).is_empty());
}

#[test]
fn flag_lookup() {
    let f = flags(true, false, true);
    assert!(f.get(StdStream::Stdin));
    assert!(!f.get(StdStream::Stdout));
    assert!(f.get(StdStream::Stderr));
}
