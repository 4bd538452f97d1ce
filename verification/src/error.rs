use crate::json::codec::decode_error_text;
use crate::text::{signed_decimal, signed_decimal_string};
use vstd::prelude::*;

verus! {

/// The I/O error of the standard library, taken as an opaque value.
#[verifier::external_type_specification]
#[verifier::external_body]
pub struct ExIoError(std::io::Error);

/// Calls `to_string` on a `std::io::Error`, which writes its message. The
/// message may come from the operating system: nothing is promised of it.
#[verifier::external_body]
fn io_error_text(error: &std::io::Error) -> (text: String)
{
    error.to_string()
}

/// Everything that can go wrong in the runtime.
#[derive(Debug)]
pub enum ClawError {
    /// Discovery found no backend executable.
    CliNotFound,
    /// The backend's version could not be read or is below 2.0.0.
    InvalidCliVersion {
        /// The version that was found.
        version: String,
    },
    /// The transport could not be set up, or was used in the wrong state.
    Connection(String),
    /// The backend exited with a status other than zero.
    Process {
        /// The exit code.
        code: i32,
        /// What the backend wrote to standard error.
        stderr: String,
    },
    /// A line of the backend was no JSON.
    JsonDecode(serde_json::Error),
    /// A JSON document did not fit the typed schema.
    MessageParse {
        /// What was wrong.
        reason: String,
        /// The document as text.
        raw: String,
    },
    /// No response to a control request arrived in time.
    ControlTimeout {
        /// The kind of message that was waited for.
        subtype: String,
    },
    /// The control protocol returned an error.
    ControlError(String),
    /// An error of the operating system.
    Io(std::io::Error),
    /// A tool handler failed.
    ToolExecution(String),
}

impl ClawError {
    /// True for an error that wraps an error of another library. Its message
    /// goes on with the message of the wrapped error.
    pub open spec fn wraps(self) -> bool {
        self is JsonDecode || self is Io
    }

    /// The message of this error; for an error that wraps another, the text
    /// that stands before the message of the wrapped error.
    pub open spec fn message(self) -> Seq<char> {
        match self {
            ClawError::CliNotFound => "CLI not found. Install it or set cli_path."@,
            ClawError::InvalidCliVersion { version } =>
                "Invalid CLI version: expected >= 2.0.0, found "@ + version@,
            ClawError::Connection(reason) => "Failed to connect to CLI: "@ + reason@,
            ClawError::Process { code, stderr } => "CLI process exited with code "@
                + signed_decimal(code as int) + ": "@ + stderr@,
            ClawError::JsonDecode(_) => "Failed to parse JSON from CLI: "@,
            ClawError::MessageParse { reason, raw } => "Failed to parse message: "@ + reason@,
            ClawError::ControlTimeout { subtype } => "Control protocol timeout waiting for "@
                + subtype@,
            ClawError::ControlError(reason) => "Control protocol error: "@ + reason@,
            ClawError::Io(_) => "IO error: "@,
            ClawError::ToolExecution(reason) => "Tool execution failed: "@ + reason@,
        }
    }

    /// True where `text` can be what `to_string` writes for this error: its
    /// message, followed by any text where the error wraps another.
    pub open spec fn says(self, text: Seq<char>) -> bool {
        if self.wraps() {
            self.message().is_prefix_of(text)
        } else {
            text == self.message()
        }
    }

    /// Writes the message of this error.
    pub fn to_string(&self) -> (text: String)
        ensures
            self.says(text@),
    {
        match self {
            ClawError::CliNotFound => String::from_str(
                "CLI not found. Install it or set cli_path.",
            ),
            ClawError::InvalidCliVersion { version } => String::from_str(
                "Invalid CLI version: expected >= 2.0.0, found ",
            ).concat(version.as_str()),
            ClawError::Connection(reason) => String::from_str(
                "Failed to connect to CLI: ",
            ).concat(reason.as_str()),
            ClawError::Process { code, stderr } => String::from_str(
                "CLI process exited with code ",
            ).concat(signed_decimal_string(*code as i64).as_str()).concat(": ").concat(
                stderr.as_str(),
            ),
            ClawError::JsonDecode(error) => String::from_str(
                "Failed to parse JSON from CLI: ",
            ).concat(decode_error_text(error).as_str()),
            ClawError::MessageParse { reason, raw } => String::from_str(
                "Failed to parse message: ",
            ).concat(reason.as_str()),
            ClawError::ControlTimeout { subtype } => String::from_str(
                "Control protocol timeout waiting for ",
            ).concat(subtype.as_str()),
            ClawError::ControlError(reason) => String::from_str("Control protocol error: ").concat(
                reason.as_str(),
            ),
            ClawError::Io(error) => String::from_str("IO error: ").concat(
                io_error_text(error).as_str(),
            ),
            ClawError::ToolExecution(reason) => String::from_str("Tool execution failed: ").concat(
                reason.as_str(),
            ),
        }
    }
}

impl From<serde_json::Error> for ClawError {
    fn from(error: serde_json::Error) -> (out: ClawError)
    {
        ClawError::JsonDecode(error)
    }
}

impl vstd::std_specs::convert::FromSpecImpl<serde_json::Error> for ClawError {
    open spec fn obeys_from_spec() -> bool {
        true
    }

    open spec fn from_spec(error: serde_json::Error) -> ClawError {
        ClawError::JsonDecode(error)
    }
}

impl From<std::io::Error> for ClawError {
    fn from(error: std::io::Error) -> (out: ClawError)
    {
        ClawError::Io(error)
    }
}

impl vstd::std_specs::convert::FromSpecImpl<std::io::Error> for ClawError {
    open spec fn obeys_from_spec() -> bool {
        true
    }

    open spec fn from_spec(error: std::io::Error) -> ClawError {
        ClawError::Io(error)
    }
}

} // verus!
