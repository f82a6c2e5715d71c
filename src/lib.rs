//! Formatting of Zeek scripts with a Topiary engine: the engine's outcome is
//! classified into this crate's own error type, and its output is decoded as
//! text, both under verified contracts.
use vstd::prelude::*;
use vstd::utf8::{decode_utf8, valid_utf8};

use topiary_tree_sitter_facade::Language as Grammar;

mod engine;
pub mod error;

pub use error::{classify, EngineFailure, FormatError};

use engine::{compile_query, describe_failure, run_formatter, string_from_utf8};
use engine::{compiled_of, outcome_of};
use error::classified;

verus! {

/// The name that the engine knows the language by.
pub const LANGUAGE_NAME: &'static str = "zeek";

/// One level of indentation.
pub const INDENT: &'static str = "\t";

/// The bytes of an engine run, as a sequence.
pub open spec fn outcome_view(outcome: Result<Vec<u8>, EngineFailure>) -> Result<
    Seq<u8>,
    EngineFailure,
> {
    match outcome {
        Ok(bytes) => Ok(bytes@),
        Err(failure) => Err(failure),
    }
}

/// What a run of the engine comes to, given what it returned.
pub open spec fn finished(outcome: Result<Seq<u8>, EngineFailure>, r: Result<String, FormatError>) -> bool {
    match outcome {
        Ok(bytes) => if valid_utf8(bytes) {
            r matches Ok(s) && s@ == decode_utf8(bytes)
        } else {
            r matches Err(e) && e is UTF8
        },
        Err(failure) => r matches Err(e) && classified(failure, e),
    }
}

/// Whether `s` is the report of a query text that does not compile: the
/// compiler's message, `": "`, and its detail.
pub open spec fn is_query_compile_error(s: Seq<char>) -> bool {
    &&& s.len() >= 26
    &&& s.subrange(0, 26) == "Error parsing query file: "@
}

/// What formatting `input` with the rules in `query`, parsed by `grammar`,
/// comes to: a query that does not compile is reported as such; otherwise
/// the engine's run, under this crate's language name and indentation,
/// decides.
pub open spec fn formats_to(
    grammar: Grammar,
    query: Seq<char>,
    input: Seq<char>,
    skip_idempotence: bool,
    tolerate_parsing_errors: bool,
    r: Result<String, FormatError>,
) -> bool {
    match compiled_of(grammar, query) {
        None => r matches Err(e) && e matches FormatError::Query(s) && is_query_compile_error(s@),
        Some(q) => finished(
            outcome_of(
                grammar,
                q,
                LANGUAGE_NAME@,
                INDENT@,
                input,
                skip_idempotence,
                tolerate_parsing_errors,
            ),
            r,
        ),
    }
}

/// Turns what the engine returned into the caller's result: its output
/// decoded as text, or the error that its failure is reported as.
pub fn finish(outcome: Result<Vec<u8>, EngineFailure>) -> (r: Result<String, FormatError>)
    ensures
        finished(outcome_view(outcome), r),
{
    match outcome {
        Ok(bytes) => match string_from_utf8(bytes) {
            Ok(s) => Ok(s),
            Err(e) => Err(FormatError::UTF8(e)),
        },
        Err(failure) => Err(classify(failure)),
    }
}

/// A run ends in a UTF-8 error exactly when the engine succeeded and its
/// output is not valid UTF-8; valid output is handed back as the text it
/// encodes, never altered.
pub proof fn lemma_encoding_failure_exact(
    outcome: Result<Seq<u8>, EngineFailure>,
    r: Result<String, FormatError>,
)
    requires
        finished(outcome, r),
    ensures
        (r matches Err(e) && e is UTF8) <==> (outcome matches Ok(b) && !valid_utf8(b)),
        outcome is Ok && valid_utf8(outcome->Ok_0) ==> r is Ok && r->Ok_0@ == decode_utf8(
            outcome->Ok_0,
        ),
{
}

/// Formats `input` with the rules in `query`, parsed by `grammar`.
///
/// Unless `skip_idempotence` is set, the engine formats its own output once
/// more and fails with `Idempotency` where that changes it; so formatted text
/// formats to itself. Unless `tolerate_parsing_errors` is set, a syntax error
/// in `input` fails with `Parse`; otherwise it is passed through as it stands.
///
/// Formatted text always ends in a newline, and the engine's output is never
/// reported as invalid UTF-8.
pub fn format(
    grammar: Grammar,
    query: &str,
    input: &str,
    skip_idempotence: bool,
    tolerate_parsing_errors: bool,
) -> (r: Result<String, FormatError>)
    ensures
        formats_to(grammar, query@, input@, skip_idempotence, tolerate_parsing_errors, r),
        r matches Ok(s) ==> s@.len() > 0 && s@.last() == '\n',
        r matches Err(e) ==> e !is UTF8,
        skip_idempotence ==> !(r matches Err(e) && e is Idempotency),
        tolerate_parsing_errors ==> !(r matches Err(e) && e is Parse),
        r is Ok && !skip_idempotence ==> formats_to(
            grammar,
            query@,
            r->Ok_0@,
            false,
            tolerate_parsing_errors,
            r,
        ) && formats_to(grammar, query@, r->Ok_0@, true, tolerate_parsing_errors, r),
{
    let ghost g = grammar;
    let compiled = match compile_query(&grammar, query) {
        Ok(q) => q,
        Err(e) => {
            let failure = describe_failure(e);
            let r = Err(classify(failure));
            proof {
                reveal_strlit("Error parsing query file");
                reveal_strlit("Error parsing query file: ");
                let s = r->Err_0->Query_0@;
                assert(s.subrange(0, 26) =~= "Error parsing query file: "@);
            }
            return r;
        },
    };
    let ghost q = compiled;
    let outcome = match run_formatter(
        input,
        LANGUAGE_NAME.to_string(),
        INDENT.to_string(),
        grammar,
        compiled,
        skip_idempotence,
        tolerate_parsing_errors,
    ) {
        Ok(output) => Ok(output),
        Err(e) => Err(describe_failure(e)),
    };
    let r = finish(outcome);
    proof {
        assert(outcome_view(outcome) == outcome_of(
            g,
            q,
            LANGUAGE_NAME@,
            INDENT@,
            input@,
            skip_idempotence,
            tolerate_parsing_errors,
        ));
    }
    r
}

} // verus!
