//! Interpretation of upstream replies: the typed results of the two
//! caller-facing operations and the errors they can fail with.

use vstd::prelude::*;

verus! {

/// The classifier's verdict, decoded from the upstream reply text.
#[derive(Debug, Clone)]
pub struct IntentJudgment {
    /// Free-text explanation of the verdict.
    pub reason: String,
    /// Whether the message is asking for a roadmap.
    pub is_roadmap: bool,
}

/// The generator's product: the upstream reply text taken verbatim.
#[derive(Debug, Clone)]
pub struct GeneratedArtifact {
    pub roadmap: String,
}

/// How an operation against the upstream service can fail. None of these is
/// recovered internally; callers branch on the kind if they want
/// differentiated handling.
#[derive(Debug, Clone)]
pub enum RoadmapError {
    /// The transport or the service itself failed; the description is
    /// surfaced unchanged.
    UpstreamError(String),
    /// The service answered, but with no textual content.
    UpstreamEmptyReply,
    /// The classifier path only: the reply text is not a JSON object with a
    /// `reason` string and an `is_roadmap` boolean.
    MalformedResponse,
}

/// What decoding a reply text as an intent judgment yields: `None` when the
/// text is not a JSON object carrying a `reason` string and an `is_roadmap`
/// boolean, and otherwise those two fields. The outcome is a function of the
/// text alone.
pub uninterp spec fn judgment_parse(s: Seq<char>) -> Option<(Seq<char>, bool)>;

/// Relies on serde_json: `serde_json::from_str` parses the reply text as a
/// JSON document, and `Value::get`, `Value::as_str` and `Value::as_bool`
/// read the `reason` and `is_roadmap` members of the parsed object; the
/// outcome depends on the text alone, and `judgment_parse` names it.
#[verifier::external_body]
fn parse_judgment(content: &str) -> (r: Option<(String, bool)>)
    ensures
        r is Some <==> judgment_parse(content@) is Some,
        r matches Some(p) ==> judgment_parse(content@) == Some((p.0@, p.1)),
{
    let value: serde_json::Value = serde_json::from_str(content).ok()?;
    let reason = value.get("reason")?.as_str()?.to_string();
    let is_roadmap = value.get("is_roadmap")?.as_bool()?;
    Some((reason, is_roadmap))
}

/// Turns the decoded fields of a reply, or their absence, into the
/// classifier's result: absence is a malformed response, presence the
/// judgment carrying exactly those fields.
pub fn judgment_from_fields(fields: Option<(String, bool)>) -> (r: Result<
    IntentJudgment,
    RoadmapError,
>)
    ensures
        fields is None ==> (r matches Err(e) && e is MalformedResponse),
        fields matches Some(p) ==> (r matches Ok(j) && j.reason == p.0 && j.is_roadmap
            == p.1),
{
    match fields {
        None => Err(RoadmapError::MalformedResponse),
        Some((reason, is_roadmap)) => Ok(IntentJudgment { reason, is_roadmap }),
    }
}

/// Interprets the textual content of an upstream reply on the classifier
/// path: no content is an empty reply, content that does not decode as a
/// judgment is a malformed response, and content that does decode gives the
/// judgment with exactly the decoded fields.
pub fn classify_reply(content: Option<String>) -> (r: Result<IntentJudgment, RoadmapError>)
    ensures
        content is None ==> (r matches Err(e) && e is UpstreamEmptyReply),
        content matches Some(c) && judgment_parse(c@) is None ==> (r matches Err(e)
            && e is MalformedResponse),
        content matches Some(c) ==> (judgment_parse(c@) matches Some(p) ==> (r matches Ok(
            j,
        ) && j.reason@ == p.0 && j.is_roadmap == p.1)),
{
    match content {
        None => Err(RoadmapError::UpstreamEmptyReply),
        Some(c) => {
            let fields = parse_judgment(c.as_str());
            proof {
                assert(judgment_parse(c@) matches Some(p) ==> (fields matches Some(f) && f.0@
                    == p.0 && f.1 == p.1));
            }
            judgment_from_fields(fields)
        },
    }
}

/// Interprets the textual content of an upstream reply on the generator
/// path: no content is an empty reply, and any content at all becomes the
/// artifact verbatim, with no reinterpretation.
pub fn generate_reply(content: Option<String>) -> (r: Result<GeneratedArtifact, RoadmapError>)
    ensures
        content is None ==> (r matches Err(e) && e is UpstreamEmptyReply),
        content matches Some(c) ==> (r matches Ok(a) && a.roadmap == c),
{
    match content {
        None => Err(RoadmapError::UpstreamEmptyReply),
        Some(c) => Ok(GeneratedArtifact { roadmap: c }),
    }
}

} // verus!
