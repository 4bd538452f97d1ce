use crate::client::ResponseStream;
use crate::error::ClawError;
use crate::json::JsonValue;
use crate::messages::{typed, Message};
use crate::options::{is_default, ClaudeAgentOptions};
use crate::transport::subprocess::{ConnectStep, SubprocessCLITransport};
use std::path::PathBuf;
use vstd::prelude::*;

verus! {

/// The arguments of the backend for a one-shot query: those of the options,
/// or of options with nothing set where there are none.
pub open spec fn query_args(prompt: Seq<char>, options: Option<ClaudeAgentOptions>) -> Seq<
    Seq<char>,
> {
    match options {
        Some(options) => options.cli_args(prompt),
        None => seq![
            "--output-format"@,
            "stream-json"@,
            "--verbose"@,
            "--setting-sources"@,
            Seq::empty(),
            "--input-format"@,
            "stream-json"@,
            "-p"@,
            prompt,
        ],
    }
}

/// Options with nothing set give the fixed arguments only.
pub proof fn lemma_default_args(options: ClaudeAgentOptions, prompt: Seq<char>)
    requires
        is_default(options),
    ensures
        options.cli_args(prompt) == query_args(prompt, None),
{
    assert(options.allowed_tools.deep_view().len() == 0);
    assert(options.disallowed_tools.deep_view().len() == 0);
    assert(options.cli_args(prompt) =~= query_args(prompt, None));
}

/// A one-shot query: the transport of its backend and the stream of its
/// typed responses. The stream owns the transport, so that the backend ends
/// with the stream.
pub struct QueryStream {
    transport: SubprocessCLITransport,
    stream: ResponseStream,
}

impl QueryStream {
    /// The transport of the query.
    pub closed spec fn carrier(self) -> SubprocessCLITransport {
        self.transport
    }

    /// True after the stream has ended.
    pub closed spec fn complete(self) -> bool {
        self.stream.complete()
    }

    /// The arguments of the backend.
    pub fn args(&self) -> (args: &Vec<String>)
        ensures
            args.deep_view() == self.carrier().arguments(),
    {
        self.transport.args()
    }

    /// The first step of the connection; see `SubprocessCLITransport::connect`.
    pub fn connect(&self) -> (step: Result<ConnectStep, ClawError>)
        ensures
            self.carrier().is_connected() ==> (step matches Err(ClawError::Connection(reason))
                && reason@ == "already connected"@),
            !self.carrier().is_connected() ==> match self.carrier().resolved_path() {
                Some(path) => step matches Ok(ConnectStep::Spawn { executable }) && executable
                    == path,
                None => step matches Ok(ConnectStep::Discover { cli_path }) && cli_path
                    == self.carrier().named_path(),
            },
    {
        self.transport.connect()
    }

    /// Goes on after the backend was started: the transport is connected,
    /// its input is closed at once, since the prompt travels in the
    /// arguments, and its channel of messages is taken.
    pub fn started(&mut self, cli_path: PathBuf, pid: Option<u32>)
        ensures
            final(self).carrier().is_connected(),
            !final(self).carrier().input_open(),
            !final(self).carrier().messages_waiting(),
            final(self).carrier().pid() == pid,
            final(self).carrier().arguments() == old(self).carrier().arguments(),
            final(self).complete() == old(self).complete(),
    {
        self.transport.resolved(cli_path);
        self.transport.connected(pid);
        let _ = self.transport.end_input();
        self.transport.messages();
    }

    /// Makes the next item of the stream from what the inbound channel gave;
    /// see `ResponseStream::next`.
    pub fn next(&mut self, received: Option<Result<JsonValue, ClawError>>) -> (item: Option<
        Result<Message, ClawError>,
    >)
        ensures
            final(self).complete() == (old(self).complete() || received is None),
            old(self).complete() || received is None ==> item is None,
            !old(self).complete() && received is Some ==> item is Some && typed(
                received->0,
                item->0,
            ),
            final(self).carrier() == old(self).carrier(),
    {
        self.stream.next(received)
    }
}

/// Prepares a one-shot query: builds the arguments of the backend from the
/// options and the prompt, and makes the transport that will run it. The
/// executable is always looked for.
pub fn query(prompt: &str, options: Option<ClaudeAgentOptions>) -> (stream: QueryStream)
    ensures
        stream.carrier().arguments() == query_args(prompt@, options),
        !stream.carrier().is_connected(),
        stream.carrier().named_path() is None,
        stream.carrier().resolved_path() is None,
        !stream.complete(),
{
    let args = match options {
        Some(options) => options.to_cli_args(prompt),
        None => {
            let defaults = ClaudeAgentOptions::default();
            proof {
                lemma_default_args(defaults, prompt@);
            }
            defaults.to_cli_args(prompt)
        },
    };
    QueryStream { transport: SubprocessCLITransport::new(None, args), stream: ResponseStream::new() }
}

} // verus!
