//! What a finished run of the tool yields: its text on success, or a
//! classified failure.
use vstd::prelude::*;

verus! {

#[verifier::external_type_specification]
#[verifier::external_body]
pub struct ExJsonValue(serde_json::Value);

#[verifier::external_type_specification]
#[verifier::external_body]
pub struct ExJsonError(serde_json::Error);

/// What a run of the tool left: whether it exited successfully, and its
/// standard output and standard error as text.
pub struct ProcessOutcome {
    pub success: bool,
    pub stdout: String,
    pub stderr: String,
}

/// A failed operation.
pub enum ExecError {
    /// The tool exited unsuccessfully; holds its standard error.
    Process(String),
    /// The tool succeeded but its output is not well-formed JSON; holds the
    /// parser's message.
    Decode(String),
}

impl ExecError {
    /// The error's message.
    pub fn message(&self) -> (r: String)
        ensures
            r@ == match self {
                ExecError::Process(m) => m@,
                ExecError::Decode(m) => m@,
            },
    {
        match self {
            ExecError::Process(m) => m.clone(),
            ExecError::Decode(m) => m.clone(),
        }
    }
}

/// Whether `text` is one well-formed JSON value, as serde_json reads it.
pub uninterp spec fn parses_as_json(text: Seq<char>) -> bool;

/// Relies on `serde_json::from_str`: it reads the whole text as one JSON
/// value and fails on malformed text.
#[verifier::external_body]
fn parse_json(text: &str) -> (r: Result<serde_json::Value, serde_json::Error>)
    ensures
        r is Ok <==> parses_as_json(text@),
{
    serde_json::from_str(text)
}

/// The result of a run: its standard output on success, else a process
/// failure that holds its standard error (standard output is dropped).
pub fn process_result(outcome: ProcessOutcome) -> (r: Result<String, ExecError>)
    ensures
        outcome.success ==> r is Ok && r->Ok_0@ == outcome.stdout@,
        !outcome.success ==> r is Err && r->Err_0 is Process && r->Err_0->Process_0@
            == outcome.stderr@,
{
    if outcome.success {
        Ok(outcome.stdout)
    } else {
        Err(ExecError::Process(outcome.stderr))
    }
}

/// The structured value that the tool's output text holds, or a decode
/// failure with the parser's message.
pub fn decode(text: &str) -> (r: Result<serde_json::Value, ExecError>)
    ensures
        r is Ok <==> parses_as_json(text@),
        r is Err ==> r->Err_0 is Decode,
{
    match parse_json(text) {
        Ok(v) => Ok(v),
        Err(e) => Err(ExecError::Decode(e.to_string())),
    }
}

/// The result of a run of the `output` operation: a process failure when
/// the run failed, else its standard output decoded as JSON.
pub fn decode_output(outcome: ProcessOutcome) -> (r: Result<serde_json::Value, ExecError>)
    ensures
        !outcome.success ==> r is Err && r->Err_0 is Process && r->Err_0->Process_0@
            == outcome.stderr@,
        outcome.success ==> (r is Ok <==> parses_as_json(outcome.stdout@)),
        outcome.success && r is Err ==> r->Err_0 is Decode,
{
    let text = process_result(outcome)?;
    decode(text.as_str())
}

} // verus!
