use chatshell::pty::{Lifecycle, PtySession, ReadOutcome};

/// A pid that is certainly not a child of the test process, so liveness
/// polls report the child gone and teardown skips the signals.
const NO_CHILD_PID: i32 = 0x3fff_fffe;

fn open_nonblocking_pty() -> (i32, i32) {
    let pair = nix::pty::openpty(None, None).expect("openpty failed");
    nix::fcntl::fcntl(
        pair.master,
        nix::fcntl::FcntlArg::F_SETFL(nix::fcntl::OFlag::O_NONBLOCK),
    )
    .expect("setting the master non-blocking failed");
    (pair.master, pair.slave)
}

#[test]
fn test_pty_loopback_echo() {
    // Without a child process, the terminal line discipline still echoes
    // what is written to the master back to it: write a command line
    // through the session and observe the echo.
    let (master, _slave) = open_nonblocking_pty();
    let mut session = PtySession::new(master, NO_CHILD_PID);

    let n = session.write_to_shell(b"echo hi\n").expect("write failed");
    assert_eq!(n, 8);

    let mut buf = vec![0u8; 256];
    let mut seen = String::new();
    let mut tries = 0;
    while tries < 100000 && !seen.contains("hi") {
        match session.read_from_shell(&mut buf) {
            ReadOutcome::Data(k) => {
                assert!(k >= 1 && k <= buf.len());
                seen.push_str(&String::from_utf8_lossy(&buf[..k]));
            }
            ReadOutcome::WouldBlock => {}
            other => panic!("unexpected read outcome: {:?}", other),
        }
        tries += 1;
    }
    assert!(seen.contains("hi"), "echo not observed: {:?}", seen);

    session.teardown();
}

#[test]
fn test_read_would_block_when_no_data() {
    let (master, _slave) = open_nonblocking_pty();
    let mut session = PtySession::new(master, NO_CHILD_PID);

    let mut buf = vec![0u8; 64];
    assert_eq!(session.read_from_shell(&mut buf), ReadOutcome::WouldBlock);
    assert_eq!(buf.len(), 64);

    session.teardown();
}

#[test]
fn test_teardown_twice_is_safe() {
    let (master, _slave) = open_nonblocking_pty();
    let mut session = PtySession::new(master, NO_CHILD_PID);
    assert!(!session.is_released());

    session.teardown();
    assert!(session.is_released());
    assert!(session.lifecycle() != Lifecycle::Running);

    // The second call must be a no-op: no second release, no panic.
    session.teardown();
    assert!(session.is_released());
    assert!(session.lifecycle() != Lifecycle::Running);
}

#[test]
fn test_is_alive_false_after_collection() {
    let (master, _slave) = open_nonblocking_pty();
    let mut session = PtySession::new(master, NO_CHILD_PID);

    // There is no such child: the first poll settles the lifecycle.
    assert!(!session.is_child_alive());

    // And it stays false on every later call, before and after teardown.
    assert!(!session.is_child_alive());
    session.teardown();
    assert!(!session.is_child_alive());
    assert!(!session.is_child_alive());
}

#[test]
fn test_wait_after_collection_fails_quietly() {
    let (master, _slave) = open_nonblocking_pty();
    let mut session = PtySession::new(master, NO_CHILD_PID);

    assert!(!session.is_child_alive());
    // The status is already collected; waiting again reports an error and
    // changes nothing.
    assert!(session.wait_for_child().is_err());
    assert!(!session.is_child_alive());
    session.teardown();
}

#[test]
fn test_resize_last_value_wins() {
    let (master, _slave) = open_nonblocking_pty();
    let mut session = PtySession::new(master, NO_CHILD_PID);
    assert_eq!(session.geometry(), None);

    session.resize_pty(25, 80);
    session.resize_pty(50, 120);
    assert_eq!(session.geometry(), Some((50, 120)));

    session.resize_pty(30, 100);
    assert_eq!(session.geometry(), Some((30, 100)));

    session.teardown();
}

#[test]
fn test_write_reports_count() {
    let (master, _slave) = open_nonblocking_pty();
    let mut session = PtySession::new(master, NO_CHILD_PID);

    let n = session.write_to_shell(b"abc").expect("write failed");
    assert!(n <= 3);
    session.teardown();
}
