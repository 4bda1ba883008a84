//! Classification of captured child-process output.
//!
//! A classification attempt prints either a single JSON object with the
//! fields `category` (string), `confidence` (number) and, optionally,
//! `original_response` (string), or a bare plain-text label. The strict
//! structured parse is delegated to serde_json behind one trusted wrapper;
//! everything that follows the parse — preferring the parsed original text,
//! degrading unstructured output to a best-effort label, rejecting empty
//! output — is verified here.

use vstd::prelude::*;
use vstd::string::StringExecFns;

use crate::errors::ErrorKind;
use crate::errors::InvocationError;
use crate::text::trim_spec;
use crate::text::trim_str;

verus! {

/// One classification answer.
///
/// `confidence` is carried as the decimal text of the number the child
/// printed (`"0.92"`); this logic never computes with it, and the host
/// converts it to its numeric type at the boundary. `original_response` is
/// always the exact text that produced the result, so a synthesized result
/// can still be traced back to what the child printed.
#[derive(Clone, Debug)]
pub struct ClassificationResult {
    pub category: String,
    pub confidence: String,
    pub original_response: String,
}

/// What the strict structured parse of a child's output yields: the
/// category text, the confidence number's decimal text, and the original
/// response text where the output carried one. The keys under which the
/// three fields are looked up are arguments, so the name is a function of
/// plain character sequences alone.
pub uninterp spec fn strict_parse(
    s: Seq<char>,
    category_key: Seq<char>,
    confidence_key: Seq<char>,
    original_key: Seq<char>,
) -> Option<(Seq<char>, Seq<char>, Option<Seq<char>>)>;

/// The parsed fields of an output as exec values.
struct ParsedFields {
    category: String,
    confidence: String,
    original: Option<String>,
}

/// Relies on serde_json: `from_str` parses the text into a
/// `serde_json::Value`, and the accessors `as_object`, `get`, `as_str` and
/// `is_number` extract the three fields, the confidence number rendered
/// back to text by its `Display`. All of it depends on the characters of
/// `s` and of the keys alone.
#[verifier::external_body]
fn extract_fields(s: &str, category_key: &str, confidence_key: &str, original_key: &str) -> (r:
    Option<ParsedFields>)
    ensures
        r is Some <==> strict_parse(s@, category_key@, confidence_key@, original_key@) is Some,
        r is Some ==> ({
            let p = r->0;
            let f = strict_parse(s@, category_key@, confidence_key@, original_key@)->0;
            &&& p.category@ == f.0
            &&& p.confidence@ == f.1
            &&& (p.original is Some <==> f.2 is Some)
            &&& (p.original is Some ==> p.original->0@ == f.2->0)
        }),
{
    let v: serde_json::Value = serde_json::from_str(s).ok()?;
    let obj = v.as_object()?;
    let category = obj.get(category_key)?.as_str()?.to_string();
    let confidence_value = obj.get(confidence_key)?;
    if !confidence_value.is_number() {
        return None;
    }
    let confidence = confidence_value.to_string();
    let original = match obj.get(original_key) {
        Some(o) => Some(o.as_str()?.to_string()),
        None => None,
    };
    Some(ParsedFields { category, confidence, original })
}

/// The strict parse under the keys this pipeline uses.
pub open spec fn strict_fields(s: Seq<char>) -> Option<(Seq<char>, Seq<char>, Option<Seq<char>>)> {
    strict_parse(s, "category"@, "confidence"@, "original_response"@)
}

/// `r` holds exactly the given three field texts.
pub open spec fn result_is(
    r: ClassificationResult,
    category: Seq<char>,
    confidence: Seq<char>,
    original: Seq<char>,
) -> bool {
    &&& r.category@ == category
    &&& r.confidence@ == confidence
    &&& r.original_response@ == original
}

/// What classifying the raw output text `raw` must yield: the strictly
/// parsed fields when the strict parse succeeds (preferring the parsed
/// original text, else the raw text); otherwise a fallback result labelled
/// by the trimmed text with confidence zero when anything non-blank was
/// printed; otherwise the parse failure.
pub open spec fn classified(raw: Seq<char>, r: Result<ClassificationResult, InvocationError>) -> bool {
    match strict_fields(raw) {
        Some(f) => ({
            let original = match f.2 {
                Some(o) => o,
                None => raw,
            };
            r is Ok && result_is(r->Ok_0, f.0, f.1, original)
        }),
        None => ({
            let trimmed = trim_spec(raw);
            if trimmed.len() > 0 {
                r is Ok && result_is(r->Ok_0, trimmed, "0.0"@, trimmed)
            } else {
                &&& r is Err
                &&& r->Err_0.kind == ErrorKind::ParseFailed
                &&& r->Err_0.detail@ == "classifier output was empty"@
            }
        }),
    }
}

/// Classifies one captured standard-output text. Strict parse first; then
/// the degrade-not-fail path for unstructured but non-blank output; an
/// error only when the output is blank.
pub fn classify_stdout(raw: &str) -> (r: Result<ClassificationResult, InvocationError>)
    ensures
        classified(raw@, r),
{
    match extract_fields(raw, "category", "confidence", "original_response") {
        Some(fields) => {
            let original_response = match fields.original {
                Some(o) => o,
                None => raw.to_owned(),
            };
            Ok(
                ClassificationResult {
                    category: fields.category,
                    confidence: fields.confidence,
                    original_response,
                },
            )
        },
        None => {
            let trimmed = trim_str(raw);
            if trimmed.as_str().is_empty() {
                Err(
                    InvocationError::new(
                        ErrorKind::ParseFailed,
                        "classifier output was empty".to_owned(),
                    ),
                )
            } else {
                let original_response = trimmed.clone();
                Ok(
                    ClassificationResult {
                        category: trimmed,
                        confidence: "0.0".to_owned(),
                        original_response,
                    },
                )
            }
        },
    }
}

/// Degrade, don't fail: whenever the trimmed output is non-empty,
/// classification succeeds, and a classification error can only be the
/// parse failure on blank output.
pub proof fn lemma_degrade_not_fail(raw: Seq<char>, r: Result<ClassificationResult, InvocationError>)
    requires
        classified(raw, r),
    ensures
        trim_spec(raw).len() > 0 ==> r is Ok,
        r is Err ==> trim_spec(raw).len() == 0 && r->Err_0.kind == ErrorKind::ParseFailed,
{
}

} // verus!
