//! The response and configuration records the backend exchanges with the
//! application, the rule-driven selection of a user-facing error message,
//! and the pure halves of the transcription request path: stripping a data
//! URL header and decoding the base64 payload. The HTTP calls themselves
//! live outside the library.

use vstd::prelude::*;

use crate::text::{
    blank, contains_seq, contains_str, find_char, find_str, first_index_of, first_occurrence,
    is_blank, seq_views, trim, trim_spec,
};

verus! {

/// The transcription endpoint's reply.
#[derive(Debug)]
pub struct AudioResponse {
    pub success: bool,
    pub transcription: Option<String>,
    pub error: Option<String>,
}

/// The chat endpoint's non-streaming reply.
#[derive(Debug)]
pub struct ChatResponse {
    pub success: bool,
    pub message: Option<String>,
    pub error: Option<String>,
}

/// One selectable model of a provider.
#[derive(Debug, Clone)]
pub struct Model {
    pub provider: String,
    pub name: String,
    pub id: String,
    pub model: String,
    pub description: String,
    pub modality: String,
    pub is_available: bool,
}

/// The models endpoint's reply.
#[derive(Debug)]
pub struct ModelsResponse {
    pub models: Vec<Model>,
}

/// The prompt-creation endpoint's reply.
#[derive(Debug)]
pub struct SystemPromptResponse {
    pub prompt_name: String,
    pub system_prompt: String,
}

/// One stored prompt.
#[derive(Debug, Clone)]
pub struct CloakPrompt {
    pub title: String,
    pub prompt: String,
    pub model_id: String,
    pub model_name: String,
}

/// The prompts endpoint's reply.
#[derive(Debug)]
pub struct CloakPromptsResponse {
    pub prompts: Vec<CloakPrompt>,
    pub total: i32,
    pub last_updated: Option<String>,
}

/// One error-mapping rule: when a reported error contains `includes`, show
/// `error` instead. A rule whose `includes` is blank is the default.
#[derive(Debug, Clone)]
pub struct ApiConfigError {
    pub includes: String,
    pub error: String,
}

/// One extra header for the transcription request.
#[derive(Debug, Clone)]
pub struct UserAudioHeader {
    pub key: String,
    pub value: String,
}

/// Where and how to send transcription requests.
#[derive(Debug, Clone)]
pub struct UserAudioConfig {
    pub url: String,
    pub fallback_url: Option<String>,
    pub model: String,
    pub fallback_model: Option<String>,
    pub user_token: String,
    pub fallback_user_token: Option<String>,
    pub headers: Option<Vec<UserAudioHeader>>,
}

/// The chat configuration the backend hands out.
#[derive(Debug)]
pub struct ApiResponseConfig {
    pub url: String,
    pub user_token: String,
    pub model: String,
    pub body: String,
    pub customer_id: Option<i64>,
    pub customer_email: Option<String>,
    pub customer_name: Option<String>,
    pub license_key: String,
    pub instance_id: String,
    pub user_audio: Option<UserAudioConfig>,
    pub errors: Option<Vec<ApiConfigError>>,
}

/// Whether `rule` applies to an error `source`: its pattern is nonempty and
/// occurs in the source.
pub open spec fn rule_applies(rule: ApiConfigError, source: Seq<char>) -> bool {
    rule.includes@.len() > 0 && contains_seq(source, rule.includes@)
}

/// The message of the first rule that applies to `source`.
pub open spec fn first_rule_for_source(rules: Seq<ApiConfigError>, source: Seq<char>) -> Option<
    Seq<char>,
>
    decreases rules.len(),
{
    if rules.len() == 0 {
        None
    } else if rule_applies(rules[0], source) {
        Some(rules[0].error@)
    } else {
        first_rule_for_source(rules.drop_first(), source)
    }
}

/// The message of the first rule that applies to the first source any rule
/// applies to, in source order.
pub open spec fn first_rule_match(rules: Seq<ApiConfigError>, sources: Seq<Seq<char>>) -> Option<
    Seq<char>,
>
    decreases sources.len(),
{
    if sources.len() == 0 {
        None
    } else {
        match first_rule_for_source(rules, sources[0]) {
            Some(message) => Some(message),
            None => first_rule_match(rules, sources.drop_first()),
        }
    }
}

/// The message of the first rule whose pattern is blank: the default rule.
pub open spec fn first_blank_rule(rules: Seq<ApiConfigError>) -> Option<Seq<char>>
    decreases rules.len(),
{
    if rules.len() == 0 {
        None
    } else if is_blank(rules[0].includes@) {
        Some(rules[0].error@)
    } else {
        first_blank_rule(rules.drop_first())
    }
}

/// The message shown for the error `sources`: the first applicable rule's
/// message, else the default rule's, else the first rule's, else a fixed
/// fallback sentence.
pub open spec fn selected_error_message(
    rules: Seq<ApiConfigError>,
    sources: Seq<Seq<char>>,
) -> Seq<char> {
    match first_rule_match(rules, sources) {
        Some(message) => message,
        None => match first_blank_rule(rules) {
            Some(message) => message,
            None => if rules.len() > 0 {
                rules[0].error@
            } else {
                "Something went wrong. Please try switching to a different model or contact support."@
            },
        },
    }
}

fn rule_for_source(error_rules: &Vec<ApiConfigError>, source: &String) -> (r: Option<String>)
    ensures
        r matches Some(message) ==> first_rule_for_source(error_rules@, source@) == Some(
            message@,
        ),
        r is None ==> first_rule_for_source(error_rules@, source@) is None,
{
    let n = error_rules.len();
    let mut k: usize = 0;
    proof {
        assert(error_rules@.skip(0) =~= error_rules@);
    }
    while k < n
        invariant
            n == error_rules@.len(),
            k <= n,
            first_rule_for_source(error_rules@, source@) == first_rule_for_source(
                error_rules@.skip(k as int),
                source@,
            ),
        decreases n - k,
    {
        proof {
            assert(error_rules@.skip(k as int)[0] == error_rules@[k as int]);
            assert(error_rules@.skip(k as int).drop_first() =~= error_rules@.skip(k + 1));
        }
        let rule = &error_rules[k];
        if !rule.includes.as_str().is_empty() && contains_str(
            source.as_str(),
            rule.includes.as_str(),
        ) {
            return Some(rule.error.clone());
        }
        k = k + 1;
    }
    None
}

/// Maps raw error `sources` to the message the user sees, by the backend's
/// rules: the first source containing a rule's nonempty pattern selects that
/// rule's message (rules tried in order per source); with no match, the
/// first rule with a blank pattern is the default; with no default, the
/// first rule; with no rules at all, a fixed fallback sentence.
pub fn map_api_error_message(error_rules: &Vec<ApiConfigError>, sources: &Vec<String>) -> (r:
    String)
    ensures
        r@ == selected_error_message(error_rules@, seq_views(sources@)),
{
    let n = sources.len();
    let mut s: usize = 0;
    proof {
        assert(seq_views(sources@).skip(0) =~~= seq_views(sources@));
    }
    while s < n
        invariant
            n == sources@.len(),
            s <= n,
            first_rule_match(error_rules@, seq_views(sources@)) == first_rule_match(
                error_rules@,
                seq_views(sources@).skip(s as int),
            ),
        decreases n - s,
    {
        proof {
            assert(seq_views(sources@).skip(s as int)[0] == sources@[s as int]@);
            assert(seq_views(sources@).skip(s as int).drop_first() =~~= seq_views(sources@).skip(
                s + 1,
            ));
        }
        match rule_for_source(error_rules, &sources[s]) {
            Some(message) => {
                return message;
            },
            None => {},
        }
        s = s + 1;
    }
    let rn = error_rules.len();
    let mut k: usize = 0;
    proof {
        assert(error_rules@.skip(0) =~= error_rules@);
    }
    while k < rn
        invariant
            rn == error_rules@.len(),
            k <= rn,
            first_rule_match(error_rules@, seq_views(sources@)) is None,
            first_blank_rule(error_rules@) == first_blank_rule(error_rules@.skip(k as int)),
        decreases rn - k,
    {
        proof {
            assert(error_rules@.skip(k as int)[0] == error_rules@[k as int]);
            assert(error_rules@.skip(k as int).drop_first() =~= error_rules@.skip(k + 1));
        }
        let rule = &error_rules[k];
        if blank(rule.includes.as_str()) {
            return rule.error.clone();
        }
        k = k + 1;
    }
    if error_rules.len() > 0 {
        return error_rules[0].error.clone();
    }
    String::from_str(
        "Something went wrong. Please try switching to a different model or contact support.",
    )
}

/// What the base64 decoder returns for this text: the decoded bytes, or
/// nothing when the text is not valid standard base64. Named here; the
/// decoder itself defines it.
pub uninterp spec fn standard_base64_decoded(encoded: Seq<char>) -> Option<Seq<u8>>;

/// Relies on base64's `STANDARD` engine: `decode` returns the decoded bytes
/// exactly when its input is valid standard base64, a function of the text
/// alone.
#[verifier::external_body]
fn base64_decode_standard(encoded: &str) -> (r: Result<Vec<u8>, String>)
    ensures
        r matches Ok(bytes) ==> standard_base64_decoded(encoded@) == Some(bytes@),
        r is Err <==> standard_base64_decoded(encoded@) is None,
{
    match base64::Engine::decode(&base64::engine::general_purpose::STANDARD, encoded) {
        Ok(bytes) => Ok(bytes),
        Err(e) => Err(format!("Failed to decode audio data: {}", e)),
    }
}

/// The base64 payload of a transcription request: the input trimmed, and
/// when a comma is present (a data URL header), only what follows the first
/// comma.
pub open spec fn audio_payload_of(audio: Seq<char>) -> Seq<char> {
    let trimmed = trim_spec(audio);
    let comma = first_index_of(trimmed, ',');
    if comma == trimmed.len() {
        trimmed
    } else {
        trimmed.skip(comma + 1)
    }
}

/// Strips an optional data URL header from the trimmed input and decodes
/// the remaining standard base64 payload; fails exactly when that payload
/// is not valid base64.
pub fn decode_audio_base64(audio_base64: &str) -> (r: Result<Vec<u8>, String>)
    ensures
        r matches Ok(bytes) ==> standard_base64_decoded(audio_payload_of(audio_base64@)) == Some(
            bytes@,
        ),
        r is Err <==> standard_base64_decoded(audio_payload_of(audio_base64@)) is None,
{
    let trimmed = trim(audio_base64);
    let trimmed_len = trimmed.unicode_len();
    let payload = match find_char(trimmed, ',') {
        Some(i) => trimmed.substring_char(i + 1, trimmed_len),
        None => trimmed,
    };
    proof {
        assert(payload@ =~= audio_payload_of(audio_base64@));
    }
    base64_decode_standard(payload)
}

/// The key/value pairs of the transcription headers that are actually sent:
/// keys are trimmed and blank keys are dropped, in order.
pub open spec fn spec_sent_headers(headers: Seq<UserAudioHeader>) -> Seq<(Seq<char>, Seq<char>)>
    decreases headers.len(),
{
    if headers.len() == 0 {
        Seq::empty()
    } else {
        let rest = spec_sent_headers(headers.drop_first());
        let key = trim_spec(headers[0].key@);
        if key.len() == 0 {
            rest
        } else {
            seq![(key, headers[0].value@)] + rest
        }
    }
}

/// The key/value views of a header list.
pub open spec fn header_views(headers: Seq<UserAudioHeader>) -> Seq<(Seq<char>, Seq<char>)> {
    Seq::new(headers.len(), |i: int| (headers[i].key@, headers[i].value@))
}

/// Filters the configured transcription headers down to the ones a request
/// carries: each key trimmed, headers with a blank key dropped, order kept.
pub fn usable_audio_headers(headers: &Vec<UserAudioHeader>) -> (sent: Vec<UserAudioHeader>)
    ensures
        header_views(sent@) == spec_sent_headers(headers@),
{
    let n = headers.len();
    let mut sent: Vec<UserAudioHeader> = Vec::new();
    let mut k: usize = 0;
    proof {
        assert(headers@.skip(0) =~= headers@);
        assert(header_views(sent@) + spec_sent_headers(headers@) =~~= spec_sent_headers(
            headers@,
        ));
    }
    while k < n
        invariant
            n == headers@.len(),
            k <= n,
            spec_sent_headers(headers@) == header_views(sent@) + spec_sent_headers(
                headers@.skip(k as int),
            ),
        decreases n - k,
    {
        proof {
            assert(headers@.skip(k as int)[0] == headers@[k as int]);
            assert(headers@.skip(k as int).drop_first() =~= headers@.skip(k + 1));
        }
        let header = &headers[k];
        let key = trim(header.key.as_str());
        if !key.is_empty() {
            sent.push(
                UserAudioHeader { key: String::from_str(key), value: header.value.clone() },
            );
            proof {
                assert(header_views(sent@) =~= header_views(sent@.drop_last()).push(
                    (trim_spec(headers@[k as int].key@), headers@[k as int].value@),
                ));
                assert(header_views(sent@) + spec_sent_headers(headers@.skip(k + 1))
                    =~~= header_views(sent@.drop_last()) + (seq![
                    (trim_spec(headers@[k as int].key@), headers@[k as int].value@),
                ] + spec_sent_headers(headers@.skip(k + 1))));
            }
        }
        k = k + 1;
    }
    sent
}

/// Extracts the license key and instance id from what the storage file
/// held: each must be present, and a missing one names itself in the error.
pub fn stored_credentials(license_key: Option<String>, instance_id: Option<String>) -> (r: Result<
    (String, String),
    String,
>)
    ensures
        license_key is None ==> (r matches Err(m) && m@ == "License key not found"@),
        license_key is Some && instance_id is None ==> (r matches Err(m) && m@
            == "Instance ID not found"@),
        license_key matches Some(license) ==> instance_id matches Some(instance) ==> (r matches
            Ok(pair) && pair.0 == license && pair.1 == instance),
{
    match (license_key, instance_id) {
        (None, _) => Err(String::from_str("License key not found")),
        (Some(_), None) => Err(String::from_str("Instance ID not found")),
        (Some(license), Some(instance)) => Ok((license, instance)),
    }
}

/// A request error message with any trailing URL detail removed: when the
/// message mentions a URL, only what precedes the first ` for url (` is
/// kept, behind `prefix`.
pub open spec fn scrubbed_error(prefix: Seq<char>, message: Seq<char>) -> Seq<char> {
    if contains_seq(message, "url ("@) && contains_seq(message, " for url ("@) {
        prefix + message.take(first_occurrence(message, " for url ("@))
    } else {
        prefix + message
    }
}

/// Prefixes a raw request error with `prefix`, cutting the error off before
/// ` for url (` when it carries a URL detail.
pub fn scrub_request_error(prefix: &str, message: &str) -> (r: String)
    ensures
        r@ == scrubbed_error(prefix@, message@),
{
    let mut r = String::from_str(prefix);
    if contains_str(message, "url (") {
        match find_str(message, " for url (") {
            Some(i) => {
                let head = message.substring_char(0, i);
                proof {
                    assert(head@ =~= message@.take(i as int));
                }
                r.append(head);
            },
            None => {
                r.append(message);
            },
        }
    } else {
        r.append(message);
    }
    r
}

} // verus!
