use crate::error::ClawError;
use std::path::PathBuf;
use vstd::prelude::*;

verus! {

/// The time to let the backend exit by itself after its input was closed, in
/// milliseconds.
pub const GRACE_MILLIS: u64 = 500;

/// The time between two looks at the backend after the termination signal,
/// in milliseconds.
pub const POLL_MILLIS: u64 = 100;

/// The number of looks at the backend between the termination signal and the
/// kill signal.
pub const POLL_LIMIT: u32 = 50;

/// What the transport does next to connect.
#[derive(Debug)]
pub enum ConnectStep {
    /// Find the executable and check its version.
    Discover {
        /// The path that the host named, if any.
        cli_path: Option<PathBuf>,
    },
    /// Start the executable at the path that was found before.
    Spawn {
        /// The path of the executable.
        executable: PathBuf,
    },
}

/// One of the three standard streams of the backend.
#[derive(Debug, Clone, Copy, PartialEq, Eq, Structural)]
pub enum Stream {
    Stdin,
    Stdout,
    Stderr,
}

/// Where the shutdown of the backend stands.
#[derive(Debug, Clone, Copy, PartialEq, Eq, Structural)]
pub enum ShutdownPhase {
    /// The input was closed and the grace time runs.
    Grace,
    /// The termination signal was sent; so many looks are left.
    Polling { remaining: u32 },
    /// Nothing is left to do.
    Done,
}

/// What the transport does next to shut the backend down.
#[derive(Debug, Clone, Copy, PartialEq, Eq, Structural)]
pub enum ShutdownAction {
    /// Wait so many milliseconds, then look whether the backend still runs.
    Wait { millis: u64 },
    /// Send the termination signal to the process, then wait and look.
    Terminate { pid: u32, millis: u64 },
    /// Send the kill signal to the process.
    Kill { pid: u32 },
    /// The shutdown is over.
    Finish,
}

/// The next phase and action of the shutdown, from the phase that ends and
/// from what was seen at its end: whether the backend still runs. After the
/// grace time a backend that still runs gets the termination signal, where
/// its process is known and the platform has signals. After each look a
/// backend that still runs is looked at again, and killed after the last
/// look.
pub open spec fn shutdown_next(
    phase: ShutdownPhase,
    running: bool,
    pid: Option<u32>,
    signals: bool,
) -> (ShutdownPhase, ShutdownAction) {
    match phase {
        ShutdownPhase::Grace => if running && pid is Some && signals {
            (
                ShutdownPhase::Polling { remaining: POLL_LIMIT },
                ShutdownAction::Terminate { pid: pid->0, millis: POLL_MILLIS },
            )
        } else {
            (ShutdownPhase::Done, ShutdownAction::Finish)
        },
        ShutdownPhase::Polling { remaining } => if !running || pid is None {
            (ShutdownPhase::Done, ShutdownAction::Finish)
        } else if remaining <= 1 {
            (ShutdownPhase::Done, ShutdownAction::Kill { pid: pid->0 })
        } else {
            (
                ShutdownPhase::Polling { remaining: (remaining - 1) as u32 },
                ShutdownAction::Wait { millis: POLL_MILLIS },
            )
        },
        ShutdownPhase::Done => (ShutdownPhase::Done, ShutdownAction::Finish),
    }
}

/// The phase of the shutdown after a run of looks at the backend;
/// `observations` tells for each look whether the backend still ran.
pub open spec fn shutdown_run(
    phase: ShutdownPhase,
    observations: Seq<bool>,
    pid: Option<u32>,
    signals: bool,
) -> ShutdownPhase
    decreases observations.len(),
{
    if observations.len() == 0 {
        phase
    } else {
        shutdown_run(
            shutdown_next(phase, observations[0], pid, signals).0,
            observations.drop_first(),
            pid,
            signals,
        )
    }
}

/// The time that an action of the shutdown waits, in milliseconds.
pub open spec fn action_millis(action: ShutdownAction) -> nat {
    match action {
        ShutdownAction::Wait { millis } => millis as nat,
        ShutdownAction::Terminate { millis, .. } => millis as nat,
        _ => 0,
    }
}

/// The time that the shutdown waits over a run of looks at the backend, in
/// milliseconds.
pub open spec fn shutdown_waited(
    phase: ShutdownPhase,
    observations: Seq<bool>,
    pid: Option<u32>,
    signals: bool,
) -> nat
    decreases observations.len(),
{
    if observations.len() == 0 {
        0
    } else {
        let next = shutdown_next(phase, observations[0], pid, signals);
        action_millis(next.1) + shutdown_waited(next.0, observations.drop_first(), pid, signals)
    }
}

proof fn lemma_polling_ends(
    remaining: u32,
    observations: Seq<bool>,
    pid: Option<u32>,
    signals: bool,
)
    requires
        observations.len() >= remaining,
        remaining >= 1,
    ensures
        shutdown_run(ShutdownPhase::Polling { remaining }, observations, pid, signals) is Done,
    decreases observations.len(),
{
    let next = shutdown_next(ShutdownPhase::Polling { remaining }, observations[0], pid, signals);
    if next.0 is Done {
        lemma_done_stays(observations.drop_first(), pid, signals);
    } else {
        lemma_polling_ends((remaining - 1) as u32, observations.drop_first(), pid, signals);
    }
}

proof fn lemma_done_stays(observations: Seq<bool>, pid: Option<u32>, signals: bool)
    ensures
        shutdown_run(ShutdownPhase::Done, observations, pid, signals) is Done,
        shutdown_waited(ShutdownPhase::Done, observations, pid, signals) == 0,
    decreases observations.len(),
{
    if observations.len() > 0 {
        lemma_done_stays(observations.drop_first(), pid, signals);
    }
}

proof fn lemma_polling_waits(
    remaining: u32,
    observations: Seq<bool>,
    pid: Option<u32>,
    signals: bool,
)
    requires
        remaining >= 1,
    ensures
        shutdown_waited(ShutdownPhase::Polling { remaining }, observations, pid, signals) <= (
        remaining - 1) * POLL_MILLIS,
    decreases observations.len(),
{
    if observations.len() > 0 {
        let next = shutdown_next(
            ShutdownPhase::Polling { remaining },
            observations[0],
            pid,
            signals,
        );
        if next.0 is Done {
            lemma_done_stays(observations.drop_first(), pid, signals);
        } else {
            lemma_polling_waits((remaining - 1) as u32, observations.drop_first(), pid, signals);
        }
    }
}

/// The shutdown always ends: after the grace time and at most fifty looks
/// at the backend nothing is left to do, whatever the looks show.
pub proof fn law_shutdown_ends(observations: Seq<bool>, pid: Option<u32>, signals: bool)
    requires
        observations.len() >= POLL_LIMIT + 1,
    ensures
        shutdown_run(ShutdownPhase::Grace, observations, pid, signals) is Done,
{
    let next = shutdown_next(ShutdownPhase::Grace, observations[0], pid, signals);
    if next.0 is Done {
        lemma_done_stays(observations.drop_first(), pid, signals);
    } else {
        lemma_polling_ends(POLL_LIMIT, observations.drop_first(), pid, signals);
    }
}

/// The shutdown waits no longer than five and a half seconds in all: the
/// grace time, and then a tenth of a second before each of fifty looks.
pub proof fn law_shutdown_is_bounded(observations: Seq<bool>, pid: Option<u32>, signals: bool)
    ensures
        GRACE_MILLIS + shutdown_waited(ShutdownPhase::Grace, observations, pid, signals) <= 5500,
{
    if observations.len() > 0 {
        let next = shutdown_next(ShutdownPhase::Grace, observations[0], pid, signals);
        if next.0 is Done {
            lemma_done_stays(observations.drop_first(), pid, signals);
        } else {
            lemma_polling_waits(POLL_LIMIT, observations.drop_first(), pid, signals);
        }
    }
}

/// What the input of the backend holds after the bytes of `writes` were
/// handed to it one write after another, where it held `before`.
pub open spec fn delivered(before: Seq<u8>, writes: Seq<Seq<u8>>) -> Seq<u8>
    decreases writes.len(),
{
    if writes.len() == 0 {
        before
    } else {
        delivered(before, writes.drop_last()) + writes.last()
    }
}

/// Writes arrive whole and in their order. One more write adds its message
/// at the end of what was there. After two writes the input holds what it
/// held, then the first message, then the second; no message is cut by
/// another.
pub proof fn law_writes_arrive_in_order(
    before: Seq<u8>,
    writes: Seq<Seq<u8>>,
    first: Seq<u8>,
    second: Seq<u8>,
)
    ensures
        delivered(before, writes.push(first)) == delivered(before, writes) + first,
        delivered(before, seq![first, second]) == before + first + second,
{
    assert(writes.push(first).drop_last() =~= writes);
    let one = seq![first];
    let two = seq![first, second];
    assert(one.drop_last() =~= Seq::<Seq<u8>>::empty());
    assert(delivered(before, one.drop_last()) == before);
    assert(one.last() == first);
    assert(delivered(before, one) == before + first);
    assert(two.drop_last() =~= one);
    assert(two.last() == second);
}

/// The lifecycle of the subprocess that runs the backend: whether it is
/// connected, whether its input is open, whether the channel of its messages
/// was handed out, and what it wrote to standard error.
pub struct SubprocessCLITransport {
    child_pid: Option<u32>,
    stdin_open: bool,
    messages_ready: bool,
    connected: bool,
    cli_path_arg: Option<PathBuf>,
    cli_path: Option<PathBuf>,
    args: Vec<String>,
    stderr_buffer: String,
}

impl SubprocessCLITransport {
    /// True while the backend is connected.
    pub closed spec fn is_connected(self) -> bool {
        self.connected
    }

    /// True while the input of the backend is open.
    pub closed spec fn input_open(self) -> bool {
        self.stdin_open
    }

    /// True while the backend can be written to: it is connected and its
    /// input is open.
    pub open spec fn writable(self) -> bool {
        self.is_connected() && self.input_open()
    }

    /// True while the channel of the messages waits to be taken.
    pub closed spec fn messages_waiting(self) -> bool {
        self.messages_ready
    }

    /// The process of the backend, once it was started.
    pub closed spec fn pid(self) -> Option<u32> {
        self.child_pid
    }

    /// The arguments of the backend.
    pub closed spec fn arguments(self) -> Seq<Seq<char>> {
        self.args.deep_view()
    }

    /// The path that the host named.
    pub closed spec fn named_path(self) -> Option<PathBuf> {
        self.cli_path_arg
    }

    /// The path of the executable, once it was found.
    pub closed spec fn resolved_path(self) -> Option<PathBuf> {
        self.cli_path
    }

    /// What the backend wrote to standard error.
    pub closed spec fn stderr_text(self) -> Seq<char> {
        self.stderr_buffer@
    }

    /// Creates a transport that is not connected.
    pub fn new(cli_path: Option<PathBuf>, args: Vec<String>) -> (transport: SubprocessCLITransport)
        ensures
            !transport.is_connected(),
            !transport.input_open(),
            !transport.messages_waiting(),
            transport.pid() is None,
            transport.named_path() == cli_path,
            transport.resolved_path() is None,
            transport.arguments() == args.deep_view(),
            transport.stderr_text() == Seq::<char>::empty(),
    {
        SubprocessCLITransport {
            child_pid: None,
            stdin_open: false,
            messages_ready: false,
            connected: false,
            cli_path_arg: cli_path,
            cli_path: None,
            args,
            stderr_buffer: String::new(),
        }
    }

    /// True iff the backend is connected.
    pub fn is_ready(&self) -> (ready: bool)
        ensures
            ready == self.is_connected(),
    {
        self.connected
    }

    /// The arguments of the backend.
    pub fn args(&self) -> (args: &Vec<String>)
        ensures
            args.deep_view() == self.arguments(),
    {
        &self.args
    }

    /// The process of the backend, once it was started.
    pub fn process_id(&self) -> (pid: Option<u32>)
        ensures
            pid == self.pid(),
    {
        self.child_pid
    }

    /// The path of the executable, once it was found.
    pub fn executable(&self) -> (path: Option<&PathBuf>)
        ensures
            path == match self.resolved_path() {
                Some(found) => Some(&found),
                None => None,
            },
    {
        self.cli_path.as_ref()
    }

    /// Begins to connect. A transport that is connected refuses. Else the
    /// executable is started at the path found before, or looked for first.
    pub fn connect(&self) -> (step: Result<ConnectStep, ClawError>)
        ensures
            self.is_connected() ==> (step matches Err(ClawError::Connection(reason)) && reason@
                == "already connected"@),
            !self.is_connected() ==> match self.resolved_path() {
                Some(path) => step matches Ok(ConnectStep::Spawn { executable }) && executable == path,
                None => step matches Ok(ConnectStep::Discover { cli_path }) && cli_path
                    == self.named_path(),
            },
    {
        if self.connected {
            return Err(ClawError::Connection(String::from_str("already connected")));
        }
        match &self.cli_path {
            Some(path) => Ok(ConnectStep::Spawn { executable: clone_path(path) }),
            None => Ok(
                ConnectStep::Discover {
                    cli_path: match &self.cli_path_arg {
                        Some(path) => Some(clone_path(path)),
                        None => None,
                    },
                },
            ),
        }
    }

    /// Keeps the path at which the executable was found.
    pub fn resolved(&mut self, cli_path: PathBuf)
        ensures
            final(self).resolved_path() == Some(cli_path),
            final(self).is_connected() == old(self).is_connected(),
            final(self).input_open() == old(self).input_open(),
            final(self).messages_waiting() == old(self).messages_waiting(),
            final(self).pid() == old(self).pid(),
            final(self).arguments() == old(self).arguments(),
            final(self).named_path() == old(self).named_path(),
            final(self).stderr_text() == old(self).stderr_text(),
    {
        self.cli_path = Some(cli_path);
    }

    /// The error for a standard stream of the backend that could not be
    /// seized.
    pub fn capture_error(stream: Stream) -> (error: ClawError)
        ensures
            error matches ClawError::Connection(reason) && reason@ == match stream {
                Stream::Stdin => "failed to capture stdin"@,
                Stream::Stdout => "failed to capture stdout"@,
                Stream::Stderr => "failed to capture stderr"@,
            },
    {
        match stream {
            Stream::Stdin => ClawError::Connection(String::from_str("failed to capture stdin")),
            Stream::Stdout => ClawError::Connection(String::from_str("failed to capture stdout")),
            Stream::Stderr => ClawError::Connection(String::from_str("failed to capture stderr")),
        }
    }

    /// Marks the transport as connected, after the backend was started and
    /// its three streams were seized: the input is open and the channel of
    /// the messages waits to be taken.
    pub fn connected(&mut self, pid: Option<u32>)
        ensures
            final(self).is_connected(),
            final(self).input_open(),
            final(self).messages_waiting(),
            final(self).pid() == pid,
            final(self).arguments() == old(self).arguments(),
            final(self).named_path() == old(self).named_path(),
            final(self).resolved_path() == old(self).resolved_path(),
            final(self).stderr_text() == old(self).stderr_text(),
    {
        self.child_pid = pid;
        self.stdin_open = true;
        self.messages_ready = true;
        self.connected = true;
    }

    /// Hands out the bytes that go to the input of the backend for one
    /// write: the message as it stands, with nothing added and nothing left
    /// out. A transport that is not connected, or whose input is closed,
    /// refuses.
    pub fn write<'a>(&self, message: &'a [u8]) -> (bytes: Result<&'a [u8], ClawError>)
        ensures
            !self.is_connected() ==> (bytes matches Err(ClawError::Connection(reason))
                && reason@ == "not connected"@),
            self.is_connected() && !self.input_open() ==> (bytes matches Err(
                ClawError::Connection(reason),
            ) && reason@ == "stdin already closed"@),
            self.writable() ==> (bytes matches Ok(out) && out@ == message@),
    {
        if !self.connected {
            return Err(ClawError::Connection(String::from_str("not connected")));
        }
        if !self.stdin_open {
            return Err(ClawError::Connection(String::from_str("stdin already closed")));
        }
        Ok(message)
    }

    /// Hands the channel of the messages out. It can be taken once.
    pub fn messages(&mut self)
        requires
            old(self).messages_waiting(),
        ensures
            !final(self).messages_waiting(),
            final(self).is_connected() == old(self).is_connected(),
            final(self).input_open() == old(self).input_open(),
            final(self).pid() == old(self).pid(),
            final(self).arguments() == old(self).arguments(),
            final(self).named_path() == old(self).named_path(),
            final(self).resolved_path() == old(self).resolved_path(),
            final(self).stderr_text() == old(self).stderr_text(),
    {
        self.messages_ready = false;
    }

    /// Hands the channel of the messages out where it still waits, and tells
    /// whether it did.
    pub fn try_messages(&mut self) -> (taken: bool)
        ensures
            taken == old(self).messages_waiting(),
            !final(self).messages_waiting(),
            final(self).is_connected() == old(self).is_connected(),
            final(self).input_open() == old(self).input_open(),
            final(self).pid() == old(self).pid(),
            final(self).arguments() == old(self).arguments(),
            final(self).named_path() == old(self).named_path(),
            final(self).resolved_path() == old(self).resolved_path(),
            final(self).stderr_text() == old(self).stderr_text(),
    {
        if self.messages_ready {
            self.messages();
            true
        } else {
            false
        }
    }

    /// Closes the input of the backend. Returns whether there was an open
    /// input to close.
    pub fn end_input(&mut self) -> (was_open: bool)
        ensures
            was_open == old(self).input_open(),
            !final(self).input_open(),
            final(self).is_connected() == old(self).is_connected(),
            final(self).messages_waiting() == old(self).messages_waiting(),
            final(self).pid() == old(self).pid(),
            final(self).arguments() == old(self).arguments(),
            final(self).named_path() == old(self).named_path(),
            final(self).resolved_path() == old(self).resolved_path(),
            final(self).stderr_text() == old(self).stderr_text(),
    {
        let was_open = self.stdin_open;
        self.stdin_open = false;
        was_open
    }

    /// Begins to close. A transport that is not connected has nothing to do.
    /// Else the input is closed and the grace time begins. Either way the
    /// transport cannot be written to from now on.
    pub fn close(&mut self) -> (action: ShutdownAction)
        ensures
            action == if old(self).is_connected() {
                ShutdownAction::Wait { millis: GRACE_MILLIS }
            } else {
                ShutdownAction::Finish
            },
            !final(self).writable(),
            final(self).is_connected() == old(self).is_connected(),
            final(self).input_open() == (old(self).input_open() && !old(self).is_connected()),
            final(self).messages_waiting() == old(self).messages_waiting(),
            final(self).pid() == old(self).pid(),
            final(self).arguments() == old(self).arguments(),
            final(self).named_path() == old(self).named_path(),
            final(self).resolved_path() == old(self).resolved_path(),
            final(self).stderr_text() == old(self).stderr_text(),
    {
        if !self.connected {
            return ShutdownAction::Finish;
        }
        self.stdin_open = false;
        ShutdownAction::Wait { millis: GRACE_MILLIS }
    }

    /// Chooses the next step of the shutdown after a wait, from the phase
    /// that ended and from whether the backend is still connected. When the
    /// shutdown is over, the transport is disconnected.
    pub fn shutdown_step(&mut self, phase: ShutdownPhase, signals: bool) -> (next: (
        ShutdownPhase,
        ShutdownAction,
    ))
        ensures
            next == shutdown_next(phase, old(self).is_connected(), old(self).pid(), signals),
            final(self).is_connected() == (old(self).is_connected() && !(next.0 is Done)),
            next.0 is Done ==> !final(self).is_connected() && !final(self).writable(),
            final(self).input_open() == old(self).input_open(),
            final(self).messages_waiting() == old(self).messages_waiting(),
            final(self).pid() == old(self).pid(),
            final(self).arguments() == old(self).arguments(),
            final(self).named_path() == old(self).named_path(),
            final(self).resolved_path() == old(self).resolved_path(),
            final(self).stderr_text() == old(self).stderr_text(),
    {
        let next = match phase {
            ShutdownPhase::Grace => match self.child_pid {
                Some(pid) => if self.connected && signals {
                    (
                        ShutdownPhase::Polling { remaining: POLL_LIMIT },
                        ShutdownAction::Terminate { pid, millis: POLL_MILLIS },
                    )
                } else {
                    (ShutdownPhase::Done, ShutdownAction::Finish)
                },
                None => (ShutdownPhase::Done, ShutdownAction::Finish),
            },
            ShutdownPhase::Polling { remaining } => match self.child_pid {
                Some(pid) => if !self.connected {
                    (ShutdownPhase::Done, ShutdownAction::Finish)
                } else if remaining <= 1 {
                    (ShutdownPhase::Done, ShutdownAction::Kill { pid })
                } else {
                    (
                        ShutdownPhase::Polling { remaining: remaining - 1 },
                        ShutdownAction::Wait { millis: POLL_MILLIS },
                    )
                },
                None => (ShutdownPhase::Done, ShutdownAction::Finish),
            },
            ShutdownPhase::Done => (ShutdownPhase::Done, ShutdownAction::Finish),
        };
        match next.0 {
            ShutdownPhase::Done => {
                self.connected = false;
            },
            _ => {},
        }
        next
    }

    /// Notes that the transport was given up, by a shutdown that failed or
    /// by its owner: it is disconnected, whatever it was.
    pub fn abandoned(&mut self)
        ensures
            !final(self).is_connected(),
            !final(self).writable(),
            final(self).input_open() == old(self).input_open(),
            final(self).messages_waiting() == old(self).messages_waiting(),
            final(self).pid() == old(self).pid(),
            final(self).arguments() == old(self).arguments(),
            final(self).named_path() == old(self).named_path(),
            final(self).resolved_path() == old(self).resolved_path(),
            final(self).stderr_text() == old(self).stderr_text(),
    {
        self.connected = false;
    }

    /// Notes that the reader reached the end of the backend's output: the
    /// transport is disconnected.
    pub fn reader_finished(&mut self)
        ensures
            !final(self).is_connected(),
            final(self).input_open() == old(self).input_open(),
            final(self).messages_waiting() == old(self).messages_waiting(),
            final(self).pid() == old(self).pid(),
            final(self).arguments() == old(self).arguments(),
            final(self).named_path() == old(self).named_path(),
            final(self).resolved_path() == old(self).resolved_path(),
            final(self).stderr_text() == old(self).stderr_text(),
    {
        self.connected = false;
    }

    /// Keeps a line that the backend wrote to standard error.
    pub fn stderr_line(&mut self, line: &str)
        ensures
            final(self).stderr_text() == old(self).stderr_text() + line@ + seq!['\n'],
            final(self).is_connected() == old(self).is_connected(),
            final(self).input_open() == old(self).input_open(),
            final(self).messages_waiting() == old(self).messages_waiting(),
            final(self).pid() == old(self).pid(),
            final(self).arguments() == old(self).arguments(),
            final(self).named_path() == old(self).named_path(),
            final(self).resolved_path() == old(self).resolved_path(),
    {
        proof {
            reveal_strlit("\n");
            assert("\n"@ =~= seq!['\n']);
        }
        self.stderr_buffer.append(line);
        self.stderr_buffer.append("\n");
    }

    /// Notes that the backend exited: the transport is disconnected. An exit
    /// without success is the process error with the exit code, or -1 where
    /// there is none, and with what the backend wrote to standard error.
    pub fn exited(&mut self, success: bool, code: Option<i32>) -> (failure: Option<ClawError>)
        ensures
            !final(self).is_connected(),
            success ==> failure is None,
            !success ==> (failure matches Some(ClawError::Process { code: c, stderr }) && c == (
            match code {
                Some(code) => code,
                None => -1i32,
            }) && stderr@ == old(self).stderr_text()),
            final(self).input_open() == old(self).input_open(),
            final(self).messages_waiting() == old(self).messages_waiting(),
            final(self).pid() == old(self).pid(),
            final(self).arguments() == old(self).arguments(),
            final(self).named_path() == old(self).named_path(),
            final(self).resolved_path() == old(self).resolved_path(),
            final(self).stderr_text() == old(self).stderr_text(),
    {
        self.connected = false;
        if success {
            None
        } else {
            Some(
                ClawError::Process {
                    code: match code {
                        Some(code) => code,
                        None => -1,
                    },
                    stderr: self.stderr_buffer.clone(),
                },
            )
        }
    }
}

/// Calls `clone` on a path of the standard library, which copies it.
#[verifier::external_body]
pub(crate) fn clone_path(path: &PathBuf) -> (copy: PathBuf)
    ensures
        copy == *path,
{
    path.clone()
}

} // verus!
