//! Speech to text: what is asked of the recognition service, and what is
//! reported of its reply.

use vstd::prelude::*;
use vstd::string::*;

verus! {

/// One reading of what was said.
#[derive(Debug)]
pub struct Alternative {
    /// The words that were recognised.
    pub transcript: String,
}

/// The readings of one stretch of speech, most likely first.
#[derive(Debug)]
pub struct SpeechRecognitionResult {
    pub alternatives: Option<Vec<Alternative>>,
}

/// What the recognition service answers.
#[derive(Debug)]
pub struct GoogleSttResponse {
    pub results: Option<Vec<SpeechRecognitionResult>>,
}

/// What is reported of a transcription.
#[derive(Debug)]
pub struct TranscriptionResult {
    /// The words that were recognised; empty on failure.
    pub text: String,
    /// Whether words were recognised.
    pub success: bool,
    /// Why none were.
    pub error: Option<String>,
}

/// The audio that is sent, base64-encoded.
#[derive(Debug)]
pub struct AudioContent {
    pub content: String,
}

/// How the audio that is sent is to be read.
#[derive(Debug)]
pub struct RecognitionConfig {
    pub encoding: String,
    pub sample_rate_hertz: u32,
    pub language_code: String,
}

/// What is asked of the recognition service.
#[derive(Debug)]
pub struct GoogleSttRequest {
    pub audio: AudioContent,
    pub config: RecognitionConfig,
}

/// How the exchange with the recognition service ended.
#[derive(Debug)]
pub enum SttReply {
    /// The service answered, and its answer was read.
    Parsed(GoogleSttResponse),
    /// The service answered, but its answer could not be read.
    Unreadable(String),
    /// The request failed, with the HTTP status where there was one.
    Failed(Option<u16>, String),
}

/// Sample rate of the audio that is sent, in hertz.
pub const SAMPLE_RATE_HERTZ: u32 = 48000;

/// The address of the recognition service for a key.
pub open spec fn recognize_url_text(api_key: Seq<char>) -> Seq<char> {
    "https://speech.googleapis.com/v1/speech:recognize?key="@ + api_key
}

/// The address of the recognition service for a key.
pub fn recognize_url(api_key: &str) -> (url: String)
    ensures
        url@ == recognize_url_text(api_key@),
{
    String::from_str("https://speech.googleapis.com/v1/speech:recognize?key=").concat(api_key)
}

/// The request for a recording in WebM/Opus at 48 kHz.
pub fn build_request(audio_base64: String, language_code: String) -> (request: GoogleSttRequest)
    ensures
        request.audio.content@ == audio_base64@,
        request.config.encoding@ == "WEBM_OPUS"@,
        request.config.sample_rate_hertz == SAMPLE_RATE_HERTZ,
        request.config.language_code@ == language_code@,
{
    GoogleSttRequest {
        audio: AudioContent { content: audio_base64 },
        config: RecognitionConfig {
            encoding: String::from_str("WEBM_OPUS"),
            sample_rate_hertz: SAMPLE_RATE_HERTZ,
            language_code,
        },
    }
}

/// The first reading of the first stretch of speech, where the answer has one.
pub open spec fn first_transcript(response: GoogleSttResponse) -> Option<Seq<char>> {
    match response.results {
        Some(results) => if results@.len() > 0 {
            match results@[0].alternatives {
                Some(alternatives) => if alternatives@.len() > 0 {
                    Some(alternatives@[0].transcript@)
                } else {
                    None
                },
                None => None,
            }
        } else {
            None
        },
        None => None,
    }
}

/// Why a failed exchange failed, in words.
pub open spec fn failure_text(reply: SttReply) -> Seq<char> {
    match reply {
        SttReply::Parsed(_) => "No transcription results found"@,
        SttReply::Unreadable(detail) => "Failed to parse API response: "@ + detail@,
        SttReply::Failed(status, detail) => if status == Some(401u16) {
            "Invalid API key. Please check your Google Cloud API key."@
        } else if status == Some(403u16) {
            "Access denied. Please ensure Speech-to-Text API is enabled in Google Cloud."@
        } else {
            "API request failed: "@ + detail@
        },
    }
}

/// The words that a reply carries, where it carries any.
pub open spec fn reply_transcript(reply: SttReply) -> Option<Seq<char>> {
    match reply {
        SttReply::Parsed(response) => first_transcript(response),
        _ => None,
    }
}

/// A failed transcription with the given reason.
fn failure(reason: String) -> (result: TranscriptionResult)
    ensures
        !result.success,
        result.text@ == Seq::<char>::empty(),
        result.error matches Some(e) && e@ == reason@,
{
    TranscriptionResult { text: String::new(), success: false, error: Some(reason) }
}

/// Checks the key before anything is sent: without a key, the transcription
/// has failed already, and this says how.
pub fn check_api_key(api_key: &str) -> (refusal: Option<TranscriptionResult>)
    ensures
        refusal is Some <==> api_key@.len() == 0,
        refusal matches Some(result) ==> {
            &&& !result.success
            &&& result.text@ == Seq::<char>::empty()
            &&& result.error matches Some(e)
            &&& e@ == "API key not configured. Please add your Google Cloud API key in settings."@
        },
{
    if api_key.is_empty() {
        Some(
            failure(
                String::from_str(
                    "API key not configured. Please add your Google Cloud API key in settings.",
                ),
            ),
        )
    } else {
        None
    }
}

/// What is reported of the exchange with the recognition service: the
/// first reading of the first stretch of speech where the answer has one,
/// else the reason why there are no words.
pub fn transcription_from_reply(reply: SttReply) -> (result: TranscriptionResult)
    ensures
        match reply_transcript(reply) {
            Some(words) => {
                &&& result.success
                &&& result.text@ == words
                &&& result.error is None
            },
            None => {
                &&& !result.success
                &&& result.text@ == Seq::<char>::empty()
                &&& result.error matches Some(e)
                &&& e@ == failure_text(reply)
            },
        },
{
    match reply {
        SttReply::Parsed(response) => {
            match &response.results {
                Some(results) => {
                    if results.len() > 0 {
                        match &results[0].alternatives {
                            Some(alternatives) => {
                                if alternatives.len() > 0 {
                                    return TranscriptionResult {
                                        text: alternatives[0].transcript.clone(),
                                        success: true,
                                        error: None,
                                    };
                                }
                            },
                            None => {},
                        }
                    }
                },
                None => {},
            }
            failure(String::from_str("No transcription results found"))
        },
        SttReply::Unreadable(detail) => failure(
            String::from_str("Failed to parse API response: ").concat(detail.as_str()),
        ),
        SttReply::Failed(status, detail) => {
            let reason = match status {
                Some(401) => String::from_str(
                    "Invalid API key. Please check your Google Cloud API key.",
                ),
                Some(403) => String::from_str(
                    "Access denied. Please ensure Speech-to-Text API is enabled in Google Cloud.",
                ),
                _ => String::from_str("API request failed: ").concat(detail.as_str()),
            };
            failure(reason)
        },
    }
}

} // verus!
