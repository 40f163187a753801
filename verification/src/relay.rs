//! The prompt relay: build the generation request, interpret the
//! generation outcome, and drive a send from credential check through
//! resolution to answer extraction.
//!
//! The host shell performs the environment read and the HTTP calls; it
//! feeds their outcomes as events into [`send_to_ai_step`], which decides
//! every transition. The one hard failure of the pipeline is a missing
//! credential; every listing failure degrades (see [`crate::resolve`]),
//! and only the generation call itself can surface an error.

use vstd::prelude::*;
use vstd::string::StringExecFns;
use crate::resolve::ListingOutcome;
use crate::resolve::ResolvedModel;
use crate::resolve::get_best_available_model;
use crate::resolve::resolution_is;
use crate::text::spec_decimal;
use crate::text::u16_to_decimal;

verus! {

/// One part of a request or answer: a piece of text.
pub struct GeminiPart {
    pub text: String,
}

/// One content turn of the request.
pub struct GeminiContent {
    pub parts: Vec<GeminiPart>,
}

/// The generation request body: `{contents:[{parts:[{text}]}]}`.
pub struct GeminiRequest {
    pub contents: Vec<GeminiContent>,
}

/// One part of a generation answer; the text may be absent.
pub struct GeminiPartResponse {
    pub text: Option<String>,
}

/// The content of a candidate; its parts may be absent.
pub struct GeminiContentResponse {
    pub parts: Option<Vec<GeminiPartResponse>>,
}

/// One candidate of a generation response; its content may be absent.
pub struct GeminiCandidate {
    pub content: Option<GeminiContentResponse>,
}

/// The structured error a generation response may carry in its body,
/// even under a success status.
pub struct GeminiError {
    pub message: String,
}

/// The generation response body: an optional candidate list and an
/// optional structured error.
pub struct GeminiResponse {
    pub candidates: Option<Vec<GeminiCandidate>>,
    pub error: Option<GeminiError>,
}

/// Errors the relay surfaces to the host.
#[derive(Debug)]
pub enum RelayError {
    /// The credential is not configured; no network call was attempted.
    MissingCredential,
    /// The generation call failed at the transport level; the payload is
    /// the underlying message.
    NetworkError(String),
    /// The service reported a failure: a non-success status with the raw
    /// response body, or a structured error in the body of a nominally
    /// successful response, with its message as the body.
    ApiError { status: u16, body: String },
    /// The response carried no valid answer text.
    EmptyResponse,
}

/// What the generation call produced, as the host observed it.
pub enum GenerationOutcome {
    /// The request failed at the transport level.
    TransportError(String),
    /// The service answered with a non-success status and this raw body.
    HttpError { status: u16, body: String },
    /// The service answered with a success status but the body could not
    /// be read as a generation response, so no answer text is in it.
    Unparseable { status: u16 },
    /// The service answered with a success status and this body.
    Parsed { status: u16, response: GeminiResponse },
}

/// `r` is a request that carries exactly `prompt` as a single part of a
/// single content turn.
pub open spec fn spec_request_of(prompt: Seq<char>, r: GeminiRequest) -> bool {
    &&& r.contents@.len() == 1
    &&& r.contents@[0].parts@.len() == 1
    &&& r.contents@[0].parts@[0].text@ == prompt
}

/// Build the generation request for a prompt: one content turn holding
/// one part holding the prompt, verbatim.
pub fn build_request(prompt: String) -> (r: GeminiRequest)
    ensures
        spec_request_of(prompt@, r),
{
    let part = GeminiPart { text: prompt };
    let mut parts: Vec<GeminiPart> = Vec::new();
    parts.push(part);
    let content = GeminiContent { parts };
    let mut contents: Vec<GeminiContent> = Vec::new();
    contents.push(content);
    GeminiRequest { contents }
}

/// The answer text a response carries: the text of the first part of the
/// content of the first candidate, if every link of that chain is
/// present.
pub open spec fn spec_extracted_text(resp: GeminiResponse) -> Option<Seq<char>> {
    match resp.candidates {
        Some(cands) => if cands@.len() > 0 {
            match cands@[0].content {
                Some(content) => match content.parts {
                    Some(parts) => if parts@.len() > 0 {
                        match parts@[0].text {
                            Some(t) => Some(t@),
                            None => None,
                        }
                    } else {
                        None
                    },
                    None => None,
                },
                None => None,
            }
        } else {
            None
        },
        None => None,
    }
}

/// Descend the optional chain candidates → first candidate → content →
/// parts → first part → text. Any absent link fails with
/// [`RelayError::EmptyResponse`]; a present chain returns the text
/// verbatim.
pub fn extract_answer_text(resp: &GeminiResponse) -> (r: Result<String, RelayError>)
    ensures
        match r {
            Ok(t) => spec_extracted_text(*resp) == Some(t@),
            Err(e) => spec_extracted_text(*resp) is None && e == RelayError::EmptyResponse,
        },
{
    match &resp.candidates {
        Some(cands) => if cands.len() > 0 {
            match &cands[0].content {
                Some(content) => match &content.parts {
                    Some(parts) => if parts.len() > 0 {
                        match &parts[0].text {
                            Some(t) => Ok(t.clone()),
                            None => Err(RelayError::EmptyResponse),
                        }
                    } else {
                        Err(RelayError::EmptyResponse)
                    },
                    None => Err(RelayError::EmptyResponse),
                },
                None => Err(RelayError::EmptyResponse),
            }
        } else {
            Err(RelayError::EmptyResponse)
        },
        None => Err(RelayError::EmptyResponse),
    }
}

/// `r` is the result the relay owes for a generation outcome: a transport
/// failure becomes `NetworkError`; a non-success status becomes
/// `ApiError` with the raw body; an unreadable success body carries no
/// answer text, so it fails as empty; a structured error in the body
/// becomes `ApiError` with its message, even under a success status; and
/// otherwise the extracted answer text decides, `EmptyResponse` when the
/// chain breaks.
pub open spec fn generation_result_is(o: GenerationOutcome, r: Result<String, RelayError>) -> bool {
    match o {
        GenerationOutcome::TransportError(m) => r == Err::<String, RelayError>(
            RelayError::NetworkError(m),
        ),
        GenerationOutcome::HttpError { status, body } => r == Err::<String, RelayError>(
            RelayError::ApiError { status, body },
        ),
        GenerationOutcome::Unparseable { status } => r == Err::<String, RelayError>(
            RelayError::EmptyResponse,
        ),
        GenerationOutcome::Parsed { status, response } => match response.error {
            Some(err) => r == Err::<String, RelayError>(
                RelayError::ApiError { status, body: err.message },
            ),
            None => match spec_extracted_text(response) {
                Some(t) => r matches Ok(answer) && answer@ == t,
                None => r == Err::<String, RelayError>(RelayError::EmptyResponse),
            },
        },
    }
}

/// Turn the observed generation outcome into the relay's result.
pub fn interpret_generation(outcome: GenerationOutcome) -> (r: Result<String, RelayError>)
    ensures
        generation_result_is(outcome, r),
{
    match outcome {
        GenerationOutcome::TransportError(m) => Err(RelayError::NetworkError(m)),
        GenerationOutcome::HttpError { status, body } => Err(
            RelayError::ApiError { status, body },
        ),
        GenerationOutcome::Unparseable { status: _ } => Err(RelayError::EmptyResponse),
        GenerationOutcome::Parsed { status, response } => match response.error {
            Some(err) => Err(RelayError::ApiError { status, body: err.message }),
            None => extract_answer_text(&response),
        },
    }
}

/// Check the credential read from the environment: absent fails with
/// `MissingCredential`; present is handed back unchanged.
pub fn check_credential(credential: Option<String>) -> (r: Result<String, RelayError>)
    ensures
        match credential {
            Some(key) => r == Ok::<String, RelayError>(key),
            None => r == Err::<String, RelayError>(RelayError::MissingCredential),
        },
{
    match credential {
        Some(key) => Ok(key),
        None => Err(RelayError::MissingCredential),
    }
}

/// The generic alias that asks for discovery instead of naming a model.
pub open spec fn generic_alias() -> Seq<char> {
    "gemini"@
}

/// A caller-supplied model is the generic alias exactly when discovery is
/// owed; anything else is a manual override.
pub fn needs_discovery(model: &String) -> (b: bool)
    ensures
        b == (model@ == generic_alias()),
{
    let alias = String::from_str("gemini");
    model.eq(&alias)
}

/// Where a send stands: what it still waits for, or its result.
pub enum SendPhase {
    /// Nothing happened yet; the credential read is owed first.
    Start { prompt: String, model: String },
    /// The credential is in hand and the alias was generic: the listing
    /// call is owed.
    AwaitListing { key: String, prompt: String },
    /// The model is resolved and the request is built: the generation
    /// call is owed.
    AwaitGeneration { key: String, resolved: ResolvedModel, request: GeminiRequest },
    /// The send is over with this result.
    Finished { result: Result<String, RelayError> },
}

/// What the host observed for the step a phase was waiting on.
pub enum SendEvent {
    /// The environment was read for the credential.
    CredentialRead { credential: Option<String> },
    /// The listing call came back.
    ListingDone { outcome: ListingOutcome },
    /// The generation call came back.
    GenerationDone { outcome: GenerationOutcome },
}

/// The event answers what the phase waits for.
pub open spec fn event_fits(phase: SendPhase, event: SendEvent) -> bool {
    match (phase, event) {
        (SendPhase::Start { .. }, SendEvent::CredentialRead { .. }) => true,
        (SendPhase::AwaitListing { .. }, SendEvent::ListingDone { .. }) => true,
        (SendPhase::AwaitGeneration { .. }, SendEvent::GenerationDone { .. }) => true,
        _ => false,
    }
}

/// The transition relation of a send. A missing credential finishes at
/// once with `MissingCredential`; a manual override skips the listing and
/// goes straight to generation under the discovery API version; the
/// generic alias awaits the listing, whose outcome resolves per
/// [`resolution_is`]; and the generation outcome finishes the send per
/// [`generation_result_is`].
pub open spec fn send_step_spec(phase: SendPhase, event: SendEvent, next: SendPhase) -> bool {
    match (phase, event) {
        (
            SendPhase::Start { prompt, model },
            SendEvent::CredentialRead { credential },
        ) => match credential {
            None => next == SendPhase::Finished {
                result: Err::<String, RelayError>(RelayError::MissingCredential),
            },
            Some(key) => if model@ == generic_alias() {
                next == SendPhase::AwaitListing { key, prompt }
            } else {
                next matches SendPhase::AwaitGeneration { key: k, resolved, request }
                    && k == key && resolved.model_id == model && resolved.api_version@
                    == "v1beta"@ && spec_request_of(prompt@, request)
            },
        },
        (
            SendPhase::AwaitListing { key, prompt },
            SendEvent::ListingDone { outcome },
        ) => next matches SendPhase::AwaitGeneration { key: k, resolved, request } && k == key
            && resolution_is(outcome, resolved) && spec_request_of(prompt@, request),
        (
            SendPhase::AwaitGeneration { .. },
            SendEvent::GenerationDone { outcome },
        ) => next matches SendPhase::Finished { result } && generation_result_is(outcome, result),
        _ => false,
    }
}

/// Advance a send by one observed event. The host performs the outside
/// work a phase waits for and feeds the outcome back here; every decision
/// of the pipeline is taken in this function.
pub fn send_to_ai_step(phase: SendPhase, event: SendEvent) -> (next: SendPhase)
    requires
        event_fits(phase, event),
    ensures
        send_step_spec(phase, event, next),
{
    match (phase, event) {
        (SendPhase::Start { prompt, model }, SendEvent::CredentialRead { credential }) => {
            match check_credential(credential) {
                Err(e) => SendPhase::Finished { result: Err(e) },
                Ok(key) => {
                    if needs_discovery(&model) {
                        SendPhase::AwaitListing { key, prompt }
                    } else {
                        let resolved = ResolvedModel {
                            model_id: model,
                            api_version: String::from_str("v1beta"),
                        };
                        let request = build_request(prompt);
                        SendPhase::AwaitGeneration { key, resolved, request }
                    }
                },
            }
        },
        (SendPhase::AwaitListing { key, prompt }, SendEvent::ListingDone { outcome }) => {
            let resolved = get_best_available_model(outcome);
            let request = build_request(prompt);
            SendPhase::AwaitGeneration { key, resolved, request }
        },
        (
            SendPhase::AwaitGeneration { key: _, resolved: _, request: _ },
            SendEvent::GenerationDone { outcome },
        ) => SendPhase::Finished { result: interpret_generation(outcome) },
        _ => {
            proof {
                assert(false);
            }
            SendPhase::Finished { result: Err(RelayError::EmptyResponse) }
        },
    }
}

/// Law: a send begun without a credential finishes at once with
/// `MissingCredential`; no phase that waits on a network call is ever
/// reached.
pub proof fn lemma_missing_credential_short_circuits(
    prompt: String,
    model: String,
    next: SendPhase,
)
    requires
        send_step_spec(
            (SendPhase::Start { prompt, model }),
            (SendEvent::CredentialRead { credential: None }),
            next,
        ),
    ensures
        next == (SendPhase::Finished {
            result: Err::<String, RelayError>(RelayError::MissingCredential),
        }),
{
}

impl RelayError {
    /// Render the error for display: the variant's context — status code,
    /// raw body, or underlying message — spelled out.
    pub fn message(&self) -> (m: String)
        ensures
            m@ == spec_relay_message(*self),
    {
        match self {
            RelayError::MissingCredential => String::from_str(
                "GEMINI_API_KEY environment variable not set. Please check your .env file.",
            ),
            RelayError::NetworkError(msg) => String::from_str("Network request failed: ").concat(
                msg.as_str(),
            ),
            RelayError::ApiError { status, body } => {
                let mut m = String::from_str("API Error (");
                let digits = u16_to_decimal(*status);
                m.append(digits.as_str());
                m.append("): ");
                m.append(body.as_str());
                m
            },
            RelayError::EmptyResponse => String::from_str(
                "No valid response text found in API response.",
            ),
        }
    }
}

/// The displayed text of each relay error.
pub open spec fn spec_relay_message(e: RelayError) -> Seq<char> {
    match e {
        RelayError::MissingCredential =>
            "GEMINI_API_KEY environment variable not set. Please check your .env file."@,
        RelayError::NetworkError(msg) => "Network request failed: "@ + msg@,
        RelayError::ApiError { status, body } => "API Error ("@ + spec_decimal(status as nat)
            + "): "@ + body@,
        RelayError::EmptyResponse => "No valid response text found in API response."@,
    }
}

} // verus!
