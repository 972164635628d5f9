use vstd::prelude::*;

verus! {

/// `serde_json::Value`, carried through opaquely: a parsed compiler report.
#[verifier::external_type_specification]
#[verifier::external_body]
pub struct ExJsonValue(serde_json::Value);

/// `serde_json::Error`, carried through opaquely: why a report did not parse.
#[verifier::external_type_specification]
#[verifier::external_body]
pub struct ExJsonError(serde_json::Error);

/// The text reported when a command ran without complaint.
pub const SUCCESS_TEXT: &'static str = "OK";

/// The text reported when the compiler's report is not valid JSON.
pub const UNREADABLE_REPORT_TEXT: &'static str = "Compile error serialize fail";

/// What `String::from_utf8_lossy` makes of a byte string.
pub uninterp spec fn lossy_text_of(b: Seq<u8>) -> Seq<char>;

/// Whether `serde_json` accepts a text as one JSON value.
pub uninterp spec fn is_json_text(s: Seq<char>) -> bool;

/// Relies on `String::from_utf8_lossy`: the text depends on the bytes alone.
#[verifier::external_body]
fn lossy_text(bytes: &[u8]) -> (r: String)
    ensures
        r@ == lossy_text_of(bytes@),
{
    String::from_utf8_lossy(bytes).into_owned()
}

/// Relies on `serde_json::from_str` into a `Value`: it succeeds exactly on the
/// texts that hold one JSON value.
#[verifier::external_body]
fn parse_json(text: &str) -> (r: Result<serde_json::Value, serde_json::Error>)
    ensures
        r is Ok <==> is_json_text(text@),
{
    serde_json::from_str::<serde_json::Value>(text)
}

/// What a compiler run reported on its error stream.
pub enum CompileOutcome {
    /// Nothing was reported: the project compiled.
    Clean,
    /// A JSON report of the problems found.
    Failed(serde_json::Value),
    /// Something was reported that is not JSON.
    Unreadable,
}

/// Reads a parsed compiler report: a JSON value is a report of problems, a
/// parse failure makes the report unreadable.
pub fn classify_report(parsed: Result<serde_json::Value, serde_json::Error>) -> (r: CompileOutcome)
    ensures
        parsed is Ok <==> r is Failed,
        parsed is Err <==> r is Unreadable,
        r is Failed ==> r->Failed_0 == parsed->Ok_0,
{
    match parsed {
        Ok(v) => CompileOutcome::Failed(v),
        Err(_) => CompileOutcome::Unreadable,
    }
}

/// Reads the error stream of a compiler run: empty means the project
/// compiled, otherwise it should hold a JSON report.
pub fn compile_outcome(stderr: &[u8]) -> (r: CompileOutcome)
    ensures
        stderr@.len() == 0 <==> r is Clean,
        stderr@.len() > 0 ==> (r is Failed <==> is_json_text(lossy_text_of(stderr@))),
        stderr@.len() > 0 ==> (r is Unreadable <==> !is_json_text(lossy_text_of(stderr@))),
{
    if stderr.len() == 0 {
        return CompileOutcome::Clean;
    }
    let text = lossy_text(stderr);
    classify_report(parse_json(text.as_str()))
}

/// The text to report after a dependency change: the success text when the
/// error stream is empty, else what the tool wrote there.
pub fn dependency_outcome(stderr: &[u8]) -> (r: String)
    ensures
        stderr@.len() == 0 ==> r@ == SUCCESS_TEXT@,
        stderr@.len() > 0 ==> r@ == lossy_text_of(stderr@),
{
    if stderr.len() == 0 {
        return SUCCESS_TEXT.to_owned();
    }
    lossy_text(stderr)
}

} // verus!
