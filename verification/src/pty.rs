//! The pseudo-terminal session: exclusive owner of the master descriptor and
//! the child process id, with a verified lifecycle.
//!
//! The caller performs the fork and hands the freshly opened master
//! descriptor and child pid to `PtySession::new`; from then on the session is
//! their single owner. Reads, writes and signals go through the session;
//! `teardown` escalates from a graceful to a forceful termination request and
//! releases the master descriptor exactly once, however often it is called.
//! Once the child's exit status has been collected, `is_child_alive` stays
//! false forever.

use vstd::prelude::*;

verus! {

/// Where the child stands: still running, exited (status collected or the
/// child presumed gone), or forcefully killed during teardown.
#[derive(Clone, Copy, Debug, PartialEq, Eq, Structural)]
pub enum Lifecycle {
    Running,
    Exited,
    Killed,
}

/// Failure of a session operation, surfaced to the bridge, which then tears
/// the session down.
#[derive(Clone, Copy, Debug, PartialEq, Eq, Structural)]
pub enum PtyError {
    Io,
}

/// Outcome of a non-blocking read: bytes arrived, nothing there yet (a
/// first-class try-again signal, not an error), the child side closed, or a
/// real failure.
#[derive(Clone, Copy, Debug, PartialEq, Eq, Structural)]
pub enum ReadOutcome {
    Data(usize),
    WouldBlock,
    Eof,
    Failed,
}

/// The two signals teardown escalates through; `Term` asks, `Kill` forces.
#[derive(Clone, Copy, Debug, PartialEq, Eq, Structural)]
pub enum SignalKind {
    Term,
    Kill,
}

/// How the child ended, as reported by a blocking wait.
#[derive(Clone, Copy, Debug, PartialEq, Eq, Structural)]
pub enum ExitStatus {
    Code(i32),
    Signaled,
    Other,
}

/// What a non-blocking status poll saw: the child is still there, its exit
/// status was collected just now, or there is no such child to wait for.
#[derive(Clone, Copy, Debug, PartialEq, Eq, Structural)]
enum ChildPoll {
    Alive,
    Reaped,
    Gone,
}

/// Why a raw read failed, apart from real errors.
enum SysReadErr {
    WouldBlock,
    Other,
}

/// Relies on nix::unistd::write: on success it returns how many of the given
/// bytes were written, never more than were given.
#[verifier::external_body]
fn sys_write(fd: i32, data: &[u8]) -> (r: Result<usize, ()>)
    ensures
        r matches Ok(n) ==> n <= data@.len(),
{
    match nix::unistd::write(fd, data) {
        Ok(n) => Ok(n),
        Err(_) => Err(()),
    }
}

/// Relies on nix::unistd::read: on success it fills a prefix of the buffer
/// and returns that prefix's length, never more than the buffer holds, and
/// never changes the buffer's length; EAGAIN is reported apart, as the
/// descriptor is non-blocking.
#[verifier::external_body]
fn sys_read(fd: i32, buf: &mut Vec<u8>) -> (r: Result<usize, SysReadErr>)
    ensures
        final(buf)@.len() == old(buf)@.len(),
        r matches Ok(n) ==> n <= old(buf)@.len(),
{
    match nix::unistd::read(fd, buf.as_mut_slice()) {
        Ok(n) => Ok(n),
        Err(nix::errno::Errno::EAGAIN) => Err(SysReadErr::WouldBlock),
        Err(_) => Err(SysReadErr::Other),
    }
}

/// Relies on nix::unistd::close to release the descriptor.
#[verifier::external_body]
fn sys_close(fd: i32) -> (r: Result<(), ()>) {
    match nix::unistd::close(fd) {
        Ok(()) => Ok(()),
        Err(_) => Err(()),
    }
}

/// Relies on nix::sys::signal::kill to deliver SIGTERM or SIGKILL to the
/// child process.
#[verifier::external_body]
fn sys_kill(pid: i32, sig: SignalKind) -> (r: Result<(), ()>) {
    let s = match sig {
        SignalKind::Term => nix::sys::signal::Signal::SIGTERM,
        SignalKind::Kill => nix::sys::signal::Signal::SIGKILL,
    };
    match nix::sys::signal::kill(nix::unistd::Pid::from_raw(pid), s) {
        Ok(()) => Ok(()),
        Err(_) => Err(()),
    }
}

/// Relies on nix::sys::wait::waitpid with WNOHANG: StillAlive means the
/// child has not ended; Exited and Signaled mean its exit status was
/// collected just now; any error maps to Gone, leaving no child to wait
/// for; the remaining states (a stopped or resumed child) leave the status
/// uncollected.
#[verifier::external_body]
fn sys_poll_child(pid: i32) -> (r: ChildPoll) {
    match nix::sys::wait::waitpid(
        nix::unistd::Pid::from_raw(pid),
        Some(nix::sys::wait::WaitPidFlag::WNOHANG),
    ) {
        Ok(nix::sys::wait::WaitStatus::StillAlive) => ChildPoll::Alive,
        Ok(nix::sys::wait::WaitStatus::Exited(_, _)) => ChildPoll::Reaped,
        Ok(nix::sys::wait::WaitStatus::Signaled(_, _, _)) => ChildPoll::Reaped,
        Ok(_) => ChildPoll::Alive,
        Err(_) => ChildPoll::Gone,
    }
}

/// Relies on nix::sys::wait::waitpid without options: it blocks until the
/// child ends and collects its exit status.
#[verifier::external_body]
fn sys_wait_child(pid: i32) -> (r: Result<ExitStatus, ()>) {
    match nix::sys::wait::waitpid(nix::unistd::Pid::from_raw(pid), None) {
        Ok(nix::sys::wait::WaitStatus::Exited(_, code)) => Ok(ExitStatus::Code(code)),
        Ok(nix::sys::wait::WaitStatus::Signaled(_, _, _)) => Ok(ExitStatus::Signaled),
        Ok(_) => Ok(ExitStatus::Other),
        Err(_) => Err(()),
    }
}

/// Relies on nix::poll::poll with an empty descriptor set, which blocks up
/// to the timeout (a signal may end the wait early): a bounded pause with no
/// busy waiting.
#[verifier::external_body]
fn sys_pause_millis(ms: i32) {
    let mut fds: [nix::poll::PollFd; 0] = [];
    let _ = nix::poll::poll(&mut fds, ms);
}

/// What a raw read result means for the session: a successful read of zero
/// bytes is the child side closing; a positive count is that many bytes of
/// output; try-again and real failures are kept apart.
fn classify_read(r: Result<usize, SysReadErr>) -> (o: ReadOutcome)
    ensures
        r matches Ok(n) ==> (if n == 0 {
            o is Eof
        } else {
            o == ReadOutcome::Data(n)
        }),
        r matches Err(e) ==> ((o is WouldBlock) == (e is WouldBlock)) && ((o is Failed) == (
        e is Other)),
{
    match r {
        Ok(n) => {
            if n == 0 {
                ReadOutcome::Eof
            } else {
                ReadOutcome::Data(n)
            }
        },
        Err(SysReadErr::WouldBlock) => ReadOutcome::WouldBlock,
        Err(SysReadErr::Other) => ReadOutcome::Failed,
    }
}

/// A live pseudo-terminal session. The master descriptor is owned here
/// exclusively and released exactly once, by `teardown`.
#[derive(Debug)]
pub struct PtySession {
    master_fd: i32,
    child_pid: i32,
    lifecycle: Lifecycle,
    released: bool,
    winsize: Option<(u16, u16)>,
}

impl PtySession {
    /// The child's lifecycle state as the session knows it.
    pub closed spec fn spec_lifecycle(&self) -> Lifecycle {
        self.lifecycle
    }

    /// Whether the master descriptor has been released.
    pub closed spec fn spec_released(&self) -> bool {
        self.released
    }

    /// The geometry most recently applied, rows then columns.
    pub closed spec fn spec_winsize(&self) -> Option<(u16, u16)> {
        self.winsize
    }

    pub closed spec fn spec_fd(&self) -> i32 {
        self.master_fd
    }

    pub closed spec fn spec_pid(&self) -> i32 {
        self.child_pid
    }

    /// A released session is never still running: teardown settles the
    /// lifecycle before it releases the descriptor.
    pub open spec fn wf(&self) -> bool {
        self.spec_released() ==> !(self.spec_lifecycle() is Running)
    }

    /// Adopt a freshly spawned pseudo-terminal. The caller performed the
    /// fork; it hands over the master descriptor, making this session the
    /// single owner, together with the child's process id.
    pub fn new(master_fd: i32, child_pid: i32) -> (s: PtySession)
        ensures
            s.wf(),
            s.spec_lifecycle() is Running,
            !s.spec_released(),
            s.spec_winsize() is None,
            s.spec_fd() == master_fd,
            s.spec_pid() == child_pid,
    {
        PtySession { master_fd, child_pid, lifecycle: Lifecycle::Running, released: false, winsize: None }
    }

    /// Current lifecycle state.
    pub fn lifecycle(&self) -> (r: Lifecycle)
        ensures
            r == self.spec_lifecycle(),
    {
        self.lifecycle
    }

    /// Whether the master descriptor has been released.
    pub fn is_released(&self) -> (r: bool)
        ensures
            r == self.spec_released(),
    {
        self.released
    }

    /// The geometry most recently applied; only the last resize shows, never
    /// an earlier one.
    pub fn geometry(&self) -> (r: Option<(u16, u16)>)
        ensures
            r == self.spec_winsize(),
    {
        self.winsize
    }

    /// Write bytes to the shell side of the pseudo-terminal. On success at
    /// most `data.len()` bytes were taken.
    pub fn write_to_shell(&self, data: &[u8]) -> (r: Result<usize, PtyError>)
        requires
            !self.spec_released(),
        ensures
            r matches Ok(n) ==> n <= data@.len(),
    {
        match sys_write(self.master_fd, data) {
            Ok(n) => Ok(n),
            Err(_) => Err(PtyError::Io),
        }
    }

    /// Drain available shell output into a prefix of `buf`, without ever
    /// blocking: no data yet is a try-again outcome, not an error, and a
    /// read of zero bytes over a nonempty buffer means the child side
    /// closed. How each drawn value is classified is `classify_read`'s
    /// contract.
    pub fn read_from_shell(&self, buf: &mut Vec<u8>) -> (r: ReadOutcome)
        requires
            !self.spec_released(),
            old(buf)@.len() >= 1,
        ensures
            final(buf)@.len() == old(buf)@.len(),
            r matches ReadOutcome::Data(n) ==> 1 <= n <= old(buf)@.len(),
    {
        classify_read(sys_read(self.master_fd, buf))
    }

    /// Record the window geometry, rows then columns. The most recent call
    /// always wins: afterwards the session's geometry is exactly this pair.
    /// The caller applies the same pair to the device before any later key
    /// bytes are written.
    pub fn resize_pty(&mut self, rows: u16, cols: u16)
        requires
            old(self).wf(),
            !old(self).spec_released(),
        ensures
            final(self).wf(),
            final(self).spec_winsize() == Some((rows, cols)),
            final(self).spec_lifecycle() == old(self).spec_lifecycle(),
            final(self).spec_released() == old(self).spec_released(),
            final(self).spec_fd() == old(self).spec_fd(),
            final(self).spec_pid() == old(self).spec_pid(),
    {
        self.winsize = Some((rows, cols));
    }

    /// Deliver a signal to the child.
    pub fn send_signal(&self, kind: SignalKind) -> (r: Result<(), PtyError>)
        requires
            !self.spec_released(),
    {
        match sys_kill(self.child_pid, kind) {
            Ok(_) => Ok(()),
            Err(_) => Err(PtyError::Io),
        }
    }

    /// Absorb one poll outcome into the lifecycle: a child still there
    /// leaves the session untouched and reports alive; anything else (status
    /// collected, or no such child to wait for) settles the lifecycle as
    /// exited and reports dead.
    fn note_poll(&mut self, p: ChildPoll) -> (r: bool)
        requires
            old(self).wf(),
            old(self).spec_lifecycle() is Running,
        ensures
            final(self).wf(),
            p is Alive ==> *final(self) == *old(self) && r,
            !(p is Alive) ==> final(self).spec_lifecycle() is Exited && !r,
            r == (final(self).spec_lifecycle() is Running),
            final(self).spec_released() == old(self).spec_released(),
            final(self).spec_winsize() == old(self).spec_winsize(),
            final(self).spec_fd() == old(self).spec_fd(),
            final(self).spec_pid() == old(self).spec_pid(),
    {
        match p {
            ChildPoll::Alive => true,
            _ => {
                self.lifecycle = Lifecycle::Exited;
                false
            },
        }
    }

    /// Whether the child is still running: true only while its exit status
    /// has not been collected. Once false it stays false forever, and the
    /// call stays safe after teardown; no error is ever raised. What each
    /// poll outcome does to the session is `note_poll`'s contract.
    pub fn is_child_alive(&mut self) -> (r: bool)
        requires
            old(self).wf(),
        ensures
            final(self).wf(),
            r == (final(self).spec_lifecycle() is Running),
            !(old(self).spec_lifecycle() is Running) ==> *final(self) == *old(self) && !r,
            old(self).spec_lifecycle() is Running ==> final(self).spec_lifecycle() is Running
                || final(self).spec_lifecycle() is Exited,
            final(self).spec_released() == old(self).spec_released(),
            final(self).spec_winsize() == old(self).spec_winsize(),
            final(self).spec_fd() == old(self).spec_fd(),
            final(self).spec_pid() == old(self).spec_pid(),
    {
        match self.lifecycle {
            Lifecycle::Running => {
                let p = sys_poll_child(self.child_pid);
                self.note_poll(p)
            },
            _ => false,
        }
    }

    /// Block until the child ends and collect its exit status. Afterwards
    /// the lifecycle is settled; waiting on an already settled session fails
    /// without touching anything.
    pub fn wait_for_child(&mut self) -> (r: Result<ExitStatus, PtyError>)
        requires
            old(self).wf(),
        ensures
            final(self).wf(),
            old(self).spec_lifecycle() is Running ==> final(self).spec_lifecycle() is Exited,
            !(old(self).spec_lifecycle() is Running) ==> *final(self) == *old(self) && r is Err,
            final(self).spec_released() == old(self).spec_released(),
            final(self).spec_winsize() == old(self).spec_winsize(),
            final(self).spec_fd() == old(self).spec_fd(),
            final(self).spec_pid() == old(self).spec_pid(),
    {
        match self.lifecycle {
            Lifecycle::Running => {
                let r = sys_wait_child(self.child_pid);
                self.lifecycle = Lifecycle::Exited;
                match r {
                    Ok(st) => Ok(st),
                    Err(_) => Err(PtyError::Io),
                }
            },
            _ => Err(PtyError::Io),
        }
    }

    /// Tear the session down: if the child still runs, ask it to terminate,
    /// wait a bounded moment, and kill it forcefully if it is still there;
    /// then release the master descriptor. The one and only release happens
    /// here, on the first call: calling teardown again is a no-op that
    /// changes nothing and never raises.
    pub fn teardown(&mut self)
        requires
            old(self).wf(),
        ensures
            final(self).wf(),
            final(self).spec_released(),
            !(final(self).spec_lifecycle() is Running),
            old(self).spec_released() ==> *final(self) == *old(self),
            final(self).spec_winsize() == old(self).spec_winsize(),
            final(self).spec_fd() == old(self).spec_fd(),
            final(self).spec_pid() == old(self).spec_pid(),
    {
        if self.released {
            return ;
        }
        if self.is_child_alive() {
            let _ = self.send_signal(SignalKind::Term);
            sys_pause_millis(100);
            if self.is_child_alive() {
                let _ = self.send_signal(SignalKind::Kill);
                self.lifecycle = Lifecycle::Killed;
            }
        }
        let _ = sys_close(self.master_fd);
        self.released = true;
    }
}

} // verus!
