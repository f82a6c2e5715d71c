use vstd::prelude::*;

use std::string::FromUtf8Error;

verus! {

#[verifier::external_type_specification]
#[verifier::external_body]
pub struct ExFromUtf8Error(FromUtf8Error);

/// Why a formatting run did not produce text.
#[derive(Debug)]
pub enum FormatError {
    /// The input could not be parsed, and parsing errors were not tolerated.
    Parse,
    /// The rule set is malformed: its message, with the engine's detail if any.
    Query(String),
    /// Formatting the output once more changed it.
    Idempotency,
    /// The engine's output is not valid UTF-8.
    UTF8(FromUtf8Error),
    /// Any other failure of the engine.
    Unknown,
}

/// A failure reported by the formatting engine, held as plain values: one
/// variant for each kind of failure that the engine distinguishes.
#[derive(Debug)]
pub enum EngineFailure {
    /// Formatting the output again made further changes.
    Idempotence,
    /// Formatting the output again failed to parse it.
    IdempotenceParsing,
    /// An internal error of the engine.
    Internal,
    /// The input could not be parsed without errors.
    Parsing,
    /// A pattern of the rule set had no match.
    PatternDoesNotMatch,
    /// The rule set could not be used: a message, and the detail that the
    /// query compiler gave, if any.
    Query(String, Option<String>),
    /// Reading the input or writing the output failed.
    Io,
}

/// The text that a query failure is reported with: the message, followed by
/// `": "` and the detail where there is one.
pub open spec fn query_message(message: Seq<char>, detail: Option<Seq<char>>) -> Seq<char> {
    match detail {
        None => message,
        Some(d) => message + seq![':', ' '] + d,
    }
}

/// The error that an engine failure is reported as.
pub open spec fn classified(failure: EngineFailure, e: FormatError) -> bool {
    match failure {
        EngineFailure::Query(m, d) => e matches FormatError::Query(s) && s@ == query_message(
            m@,
            match d {
                None => None,
                Some(d) => Some(d@),
            },
        ),
        EngineFailure::Idempotence => e is Idempotency,
        EngineFailure::Parsing => e is Parse,
        _ => e is Unknown,
    }
}

/// Joins a message and its detail as `query_message` states.
fn with_detail(message: String, detail: String) -> (r: String)
    ensures
        r@ == query_message(message@, Some(detail@)),
{
    let r = message.concat(": ").concat(detail.as_str());
    proof {
        reveal_strlit(": ");
        assert(": "@ =~= seq![':', ' ']);
    }
    r
}

/// Maps a failure of the engine to the error that callers see.
pub fn classify(failure: EngineFailure) -> (r: FormatError)
    ensures
        classified(failure, r),
{
    match failure {
        EngineFailure::Query(message, None) => FormatError::Query(message),
        EngineFailure::Query(message, Some(detail)) => FormatError::Query(
            with_detail(message, detail),
        ),
        EngineFailure::Idempotence => FormatError::Idempotency,
        EngineFailure::Parsing => FormatError::Parse,
        EngineFailure::IdempotenceParsing => FormatError::Unknown,
        EngineFailure::Internal => FormatError::Unknown,
        EngineFailure::PatternDoesNotMatch => FormatError::Unknown,
        EngineFailure::Io => FormatError::Unknown,
    }
}

} // verus!
