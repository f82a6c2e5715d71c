use vstd::prelude::*;
use vstd::utf8::{decode_utf8, valid_utf8};

use std::string::FromUtf8Error;
use topiary_core::{FormatterError, TopiaryQuery};
use topiary_tree_sitter_facade::Language as Grammar;

use crate::error::EngineFailure;

verus! {

#[verifier::external_type_specification]
#[verifier::external_body]
pub struct ExGrammar(Grammar);

#[verifier::external_type_specification]
#[verifier::external_body]
pub struct ExTopiaryQuery(TopiaryQuery);

#[verifier::external_type_specification]
#[verifier::external_body]
pub struct ExFormatterError(FormatterError);

/// What `topiary_core::TopiaryQuery::new` gives for a grammar and a query
/// text: the compiled query, or nothing where compiling fails.
pub uninterp spec fn compiled_of(grammar: Grammar, query: Seq<char>) -> Option<TopiaryQuery>;

/// What `topiary_core::formatter` in its `Format` mode gives for a grammar, a
/// compiled query, a language name, an indentation string, an input and the
/// two flags: the bytes it writes, or its failure.
pub uninterp spec fn outcome_of(
    grammar: Grammar,
    query: TopiaryQuery,
    name: Seq<char>,
    indent: Seq<char>,
    input: Seq<char>,
    skip_idempotence: bool,
    tolerate_parsing_errors: bool,
) -> Result<Seq<u8>, EngineFailure>;

/// The variant of `topiary_core::FormatterError` that a failure is, with the
/// message and rendered detail of a query failure.
pub uninterp spec fn failure_of(e: FormatterError) -> EngineFailure;

/// An engine run that wrote `bytes`.
pub open spec fn wrote(bytes: Seq<u8>) -> Result<Seq<u8>, EngineFailure> {
    Ok(bytes)
}

/// An engine run that failed with `failure`.
pub open spec fn failed(failure: EngineFailure) -> Result<Seq<u8>, EngineFailure> {
    Err(failure)
}

/// Relies on `topiary_core::TopiaryQuery::new`: compiles the query text against
/// the grammar's node kinds. It fails only with
/// `FormatterError::Query("Error parsing query file", Some(e))`.
#[verifier::external_body]
pub(crate) fn compile_query(grammar: &Grammar, query: &str) -> (r: Result<
    TopiaryQuery,
    FormatterError,
>)
    ensures
        r is Ok <==> compiled_of(*grammar, query@) is Some,
        r matches Ok(q) ==> compiled_of(*grammar, query@) == Some(q),
        r matches Err(e) ==> failure_of(e) matches EngineFailure::Query(m, Some(_))
            && m@ == "Error parsing query file"@,
{
    TopiaryQuery::new(grammar, query)
}

/// Relies on `topiary_core::formatter` in its `Format` mode.
/// - On success the engine writes `format!("{}\n", rendered.trim())` into the
///   empty buffer: the UTF-8 encoding of text that ends in a newline.
/// - Unless `skip_idempotence` is set, it succeeds only where formatting that
///   text once more, with the idempotence check skipped, gives it back; and
///   then doing so with the check gives it back too.
/// - `FormatterError::Idempotence` comes only from that check, and
///   `FormatterError::Parsing` only where parsing errors are not tolerated.
#[verifier::external_body]
pub(crate) fn run_formatter(
    input: &str,
    name: String,
    indent: String,
    grammar: Grammar,
    query: TopiaryQuery,
    skip_idempotence: bool,
    tolerate_parsing_errors: bool,
) -> (r: Result<Vec<u8>, FormatterError>)
    ensures
        r matches Ok(out) ==> outcome_of(
            grammar,
            query,
            name@,
            indent@,
            input@,
            skip_idempotence,
            tolerate_parsing_errors,
        ) == wrote(out@),
        r matches Err(e) ==> outcome_of(
            grammar,
            query,
            name@,
            indent@,
            input@,
            skip_idempotence,
            tolerate_parsing_errors,
        ) == failed(failure_of(e)),
        r matches Ok(out) ==> valid_utf8(out@) && decode_utf8(out@).len() > 0 && decode_utf8(
            out@,
        ).last() == '\n',
        r is Ok && !skip_idempotence ==> outcome_of(
            grammar,
            query,
            name@,
            indent@,
            decode_utf8(r->Ok_0@),
            true,
            tolerate_parsing_errors,
        ) == wrote(r->Ok_0@) && outcome_of(
            grammar,
            query,
            name@,
            indent@,
            decode_utf8(r->Ok_0@),
            false,
            tolerate_parsing_errors,
        ) == wrote(r->Ok_0@),
        r is Err && skip_idempotence ==> !(failure_of(r->Err_0) is Idempotence),
        r is Err && tolerate_parsing_errors ==> !(failure_of(r->Err_0) is Parsing),
{
    let language = topiary_core::Language { name, query, grammar, indent: Some(indent) };
    let operation = topiary_core::Operation::Format { skip_idempotence, tolerate_parsing_errors };
    let mut output = Vec::new();
    topiary_core::formatter(&mut input.as_bytes(), &mut output, &language, operation)
        .map(|()| output)
}

/// Tells the variants of `topiary_core::FormatterError` apart, keeping the
/// message and the rendered detail of a query failure.
#[verifier::external_body]
pub(crate) fn describe_failure(e: FormatterError) -> (r: EngineFailure)
    ensures
        r == failure_of(e),
{
    match e {
        FormatterError::Idempotence => EngineFailure::Idempotence,
        FormatterError::IdempotenceParsing(_) => EngineFailure::IdempotenceParsing,
        FormatterError::Internal(..) => EngineFailure::Internal,
        FormatterError::Parsing { .. } => EngineFailure::Parsing,
        FormatterError::PatternDoesNotMatch => EngineFailure::PatternDoesNotMatch,
        FormatterError::Query(m, d) => EngineFailure::Query(m, d.map(|d| d.to_string())),
        FormatterError::Io(_) => EngineFailure::Io,
    }
}

/// Relies on `String::from_utf8`: it succeeds exactly on valid UTF-8, and then
/// holds the characters that the bytes encode.
#[verifier::external_body]
pub(crate) fn string_from_utf8(bytes: Vec<u8>) -> (r: Result<String, FromUtf8Error>)
    ensures
        r is Ok <==> valid_utf8(bytes@),
        r matches Ok(s) ==> s@ == decode_utf8(bytes@),
{
    String::from_utf8(bytes)
}

} // verus!
