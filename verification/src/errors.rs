//! The error taxonomy: every failure is terminal for the log or file it
//! occurs in, and batch work wraps it with the identifying source name as it
//! crosses into the aggregation.
use vstd::prelude::*;
use vstd::string::StringExecFns;

verus! {

/// Why a log or a file could not be loaded.
#[derive(Debug)]
pub enum GameplayError {
    /// The log is empty, does not begin with a game-start event enumerating
    /// four participants, or is too short for the sliding window to operate.
    MalformedLog,
    /// A line of the log did not decode as a valid event; carries the line.
    ParseFailure { line: String },
    /// A file could not be read or its contents could not be decompressed.
    IoFailure { message: String },
    /// A failure wrapped with the name of the file it arose in.
    InFile { filename: String, inner: Box<GameplayError> },
}

/// The exact description text of an error: a wrapped failure names its file
/// first, then the wrapped failure's own description; a parse failure
/// carries the offending line verbatim.
pub open spec fn describe_spec(e: GameplayError) -> Seq<char>
    decreases e,
{
    match e {
        GameplayError::MalformedLog => "empty or invalid game log"@,
        GameplayError::ParseFailure { line } => "failed to parse log line: "@ + line@,
        GameplayError::IoFailure { message } => "io failure: "@ + message@,
        GameplayError::InFile { filename, inner } => "error when reading "@ + filename@ + ": "@
            + describe_spec(*inner),
    }
}

impl GameplayError {
    /// A short human-readable description of the error, exactly as
    /// [`describe_spec`] lays it out.
    pub fn describe(&self) -> (r: String)
        ensures
            r@ == describe_spec(*self),
        decreases self,
    {
        match self {
            GameplayError::MalformedLog => "empty or invalid game log".to_owned(),
            GameplayError::ParseFailure { line } => {
                let mut s = "failed to parse log line: ".to_owned();
                s.append(line.as_str());
                s
            },
            GameplayError::IoFailure { message } => {
                let mut s = "io failure: ".to_owned();
                s.append(message.as_str());
                s
            },
            GameplayError::InFile { filename, inner } => {
                let mut s = "error when reading ".to_owned();
                s.append(filename.as_str());
                s.append(": ");
                let d = inner.describe();
                s.append(d.as_str());
                s
            },
        }
    }
}

} // verus!
