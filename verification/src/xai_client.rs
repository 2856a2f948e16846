//! The generation provider's client: its configuration, the records that its
//! responses are made of, and the reading of a response's status.
//!
//! Sending a request is the caller's work. The caller hands over what came
//! back as plain values, and gets back what to make of it.

use vstd::pervasive::unreached;
use vstd::prelude::*;
use vstd::string::StringExecFns;

verus! {

/// The provider's chat completion endpoint.
pub const DEFAULT_XAI_API_URL: &'static str = "https://api.x.ai/v1/chat/completions";

/// The time allowed for one call, in seconds: one hour.
pub const DEFAULT_TIMEOUT_SECONDS: u64 = 3600;

/// The name of the environment variable that holds the credential.
pub const API_KEY_VARIABLE: &'static str = "XAI_API_KEY";

/// The status by which the provider signals rate limiting.
pub const RATE_LIMIT_CODE: u16 = 429;

/// What stands for a response body that could not be read.
pub const UNKNOWN_ERROR: &'static str = "Unknown error";

/// A single-shot completion response.
#[derive(Clone, Debug)]
pub struct ChatCompletionResponse {
    pub id: Option<String>,
    pub object: Option<String>,
    pub created: Option<u64>,
    pub model: Option<String>,
    pub choices: Vec<Choice>,
    pub usage: Option<Usage>,
}

/// One choice of a completion response.
#[derive(Clone, Debug)]
pub struct Choice {
    pub index: Option<u32>,
    pub message: Option<MessageResponse>,
    pub finish_reason: Option<String>,
    pub delta: Option<StreamDelta>,
}

/// The incremental fragment that one stream event carries.
#[derive(Clone, Debug)]
pub struct StreamDelta {
    pub role: Option<String>,
    pub content: Option<String>,
}

/// The message of a completed choice.
#[derive(Clone, Debug)]
pub struct MessageResponse {
    pub role: Option<String>,
    pub content: Option<String>,
}

/// Token counts of a completion.
#[derive(Clone, Copy, Debug)]
pub struct Usage {
    pub prompt_tokens: Option<u32>,
    pub completion_tokens: Option<u32>,
    pub total_tokens: Option<u32>,
}

/// The payload of one data line of a streamed completion.
#[derive(Clone, Debug)]
pub struct StreamChunk {
    pub id: Option<String>,
    pub object: Option<String>,
    pub created: Option<u64>,
    pub model: Option<String>,
    pub choices: Vec<StreamChoice>,
}

/// One choice of a stream chunk.
#[derive(Clone, Debug)]
pub struct StreamChoice {
    pub index: Option<u32>,
    pub delta: Option<StreamDelta>,
    pub finish_reason: Option<String>,
}

/// `StreamDelta` as mathematics.
pub struct StreamDeltaView {
    pub role: Option<Seq<char>>,
    pub content: Option<Seq<char>>,
}

impl View for StreamDelta {
    type V = StreamDeltaView;

    open spec fn view(&self) -> StreamDeltaView {
        StreamDeltaView { role: self.role.deep_view(), content: self.content.deep_view() }
    }
}

impl StreamChunk {
    /// The delta of the first choice, if the chunk has a choice and that choice
    /// has a delta.
    pub open spec fn first_delta(self) -> Option<StreamDelta> {
        if self.choices@.len() > 0 {
            self.choices@[0].delta
        } else {
            None
        }
    }
}

impl ChatCompletionResponse {
    /// The content of the first choice's message, if there is one.
    pub open spec fn first_content(self) -> Option<Seq<char>> {
        if self.choices@.len() > 0 {
            match self.choices@[0].message {
                Some(message) => message.content.deep_view(),
                None => None,
            }
        } else {
            None
        }
    }
}

/// Why no client could be made.
#[derive(Clone, Debug, PartialEq, Eq)]
pub enum ConfigError {
    /// The credential could not be read from the environment. `reason` is
    /// what the failed read gave as its cause.
    MissingCredential { reason: String },
}

/// `ConfigError` as mathematics.
pub enum ConfigErrorView {
    MissingCredential { reason: Seq<char> },
}

impl View for ConfigError {
    type V = ConfigErrorView;

    open spec fn view(&self) -> ConfigErrorView {
        match self {
            ConfigError::MissingCredential { reason } => ConfigErrorView::MissingCredential {
                reason: reason@,
            },
        }
    }
}

impl ConfigErrorView {
    /// The text of the error: the variable that was looked for, and why the
    /// read failed.
    pub open spec fn text(self) -> Seq<char> {
        match self {
            ConfigErrorView::MissingCredential { reason } => "Environment variable '"@
                + API_KEY_VARIABLE@ + "' not found: "@ + reason,
        }
    }
}

/// The text of the error names the variable and ends with the reason.
pub proof fn lemma_missing_credential_text(reason: Seq<char>)
    ensures
        (ConfigErrorView::MissingCredential { reason }).text()
            == "Environment variable 'XAI_API_KEY' not found: "@ + reason,
{
    reveal_strlit("Environment variable '");
    reveal_strlit("XAI_API_KEY");
    reveal_strlit("' not found: ");
    reveal_strlit("Environment variable 'XAI_API_KEY' not found: ");
    assert((ConfigErrorView::MissingCredential { reason }).text()
        =~= "Environment variable 'XAI_API_KEY' not found: "@ + reason);
}

impl ConfigError {
    /// The error as a message for the caller.
    pub fn message(&self) -> (message: String)
        ensures
            message@ == self@.text(),
    {
        match self {
            ConfigError::MissingCredential { reason } => {
                let mut message = String::from_str("Environment variable '");
                message.append(API_KEY_VARIABLE);
                message.append("' not found: ");
                message.append(reason.as_str());
                message
            },
        }
    }
}

/// A configured client of the generation provider.
#[derive(Clone, Debug)]
pub struct XaiClient {
    api_key: String,
    base_url: String,
    timeout_seconds: u64,
}

/// `XaiClient` as mathematics.
pub struct XaiClientView {
    pub api_key: Seq<char>,
    pub base_url: Seq<char>,
    pub timeout_seconds: u64,
}

impl View for XaiClient {
    type V = XaiClientView;

    closed spec fn view(&self) -> XaiClientView {
        XaiClientView {
            api_key: self.api_key@,
            base_url: self.base_url@,
            timeout_seconds: self.timeout_seconds,
        }
    }
}

/// The configuration that `with_config` arrives at. `credential` is what
/// reading the credential gave: the key, or the reason why there is none.
pub open spec fn configured(
    credential: Result<String, String>,
    base_url: Option<String>,
    timeout_seconds: Option<u64>,
) -> Result<XaiClientView, ConfigErrorView> {
    match credential {
        Err(reason) => Err(ConfigErrorView::MissingCredential { reason: reason@ }),
        Ok(key) => Ok(
            XaiClientView {
                api_key: key@,
                base_url: match base_url {
                    Some(url) => url@,
                    None => DEFAULT_XAI_API_URL@,
                },
                timeout_seconds: match timeout_seconds {
                    Some(seconds) => seconds,
                    None => DEFAULT_TIMEOUT_SECONDS,
                },
            },
        ),
    }
}

/// The view of what making a client gave.
pub open spec fn made_view(client: Result<XaiClient, ConfigError>) -> Result<
    XaiClientView,
    ConfigErrorView,
> {
    match client {
        Ok(made) => Ok(made@),
        Err(error) => Err(error@),
    }
}

/// The status as the transport prints it: the number and its reason phrase.
/// This is what the `Display` of `reqwest::StatusCode` writes.
pub uninterp spec fn status_line_of(status: u16) -> Seq<char>;

/// `reqwest::StatusCode::from_u16`, and the status printed by its `Display`.
/// There is such a status exactly for the numbers from 100 to 999; what is
/// printed is `status_line_of` the number.
#[verifier::external_body]
fn print_status(status: u16) -> (line: Option<String>)
    ensures
        line is Some <==> 100 <= status <= 999,
        line matches Some(text) ==> text@ == status_line_of(status),
{
    match reqwest::StatusCode::from_u16(status) {
        Ok(code) => Some(code.to_string()),
        Err(_) => None,
    }
}

/// A status is a number from 100 to 999.
pub open spec fn is_status(status: u16) -> bool {
    100 <= status <= 999
}

/// A status in the range of success.
pub open spec fn is_success(status: u16) -> bool {
    200 <= status <= 299
}

/// The status of a response. Its view is the status as a number.
#[derive(Clone, Copy, Debug)]
pub struct ResponseStatus {
    code: u16,
}

impl View for ResponseStatus {
    type V = u16;

    closed spec fn view(&self) -> u16 {
        self.code
    }
}

impl ResponseStatus {
    #[verifier::type_invariant]
    spec fn in_range(self) -> bool {
        is_status(self.code)
    }

    /// The status with the given number, if the number is one of a status.
    pub fn new(code: u16) -> (status: Option<ResponseStatus>)
        ensures
            status is Some <==> is_status(code),
            status matches Some(made) ==> made@ == code,
    {
        if 100 <= code && code <= 999 {
            Some(ResponseStatus { code })
        } else {
            None
        }
    }

    /// The status as a number.
    pub fn code(&self) -> (code: u16)
        ensures
            code == self@,
            is_status(code),
    {
        proof {
            use_type_invariant(self);
        }
        self.code
    }

    /// Whether the status is one of success.
    pub fn is_success(&self) -> (success: bool)
        ensures
            success == is_success(self@),
    {
        is_success_status(self.code)
    }

    /// The status as the transport prints it.
    pub fn line(&self) -> (line: String)
        ensures
            line@ == status_line_of(self@),
    {
        proof {
            use_type_invariant(self);
        }
        match print_status(self.code) {
            Some(line) => line,
            None => unreached(),
        }
    }
}

/// The description of a call that the provider answered with a status other
/// than success.
pub open spec fn failure_text(status: u16, status_line: Seq<char>, body: Seq<char>) -> Seq<char> {
    if status == RATE_LIMIT_CODE {
        "RATE LIMITED: XAI API returned 429. Response: "@ + body
    } else {
        "API request failed with status "@ + status_line + ": "@ + body
    }
}

/// The description of a call that was answered with the status `status`,
/// which is not one of success, and with the text `body`, if it could be read.
pub open spec fn refusal_text(status: u16, body: Option<Seq<char>>) -> Seq<char> {
    failure_text(
        status,
        status_line_of(status),
        match body {
            Some(text) => text,
            None => UNKNOWN_ERROR@,
        },
    )
}

/// What a response's status means for the call: success, or a failure with
/// its description.
pub open spec fn response_outcome(status: u16, body: Option<Seq<char>>) -> Result<(), Seq<char>> {
    if is_success(status) {
        Ok(())
    } else {
        Err(refusal_text(status, body))
    }
}

impl XaiClient {
    /// A client with the default endpoint and timeout. `credential` is what
    /// reading the credential from the environment gave: the key, or the
    /// reason why the read failed.
    pub fn new(credential: Result<String, String>) -> (client: Result<XaiClient, ConfigError>)
        ensures
            made_view(client) == configured(credential, None, None),
    {
        XaiClient::with_config(credential, None, None)
    }

    /// A client with the given endpoint and timeout, each with its default
    /// where it is `None`. No client is made without a credential: the error
    /// then carries the reason why the read failed.
    pub fn with_config(
        credential: Result<String, String>,
        base_url: Option<String>,
        timeout_seconds: Option<u64>,
    ) -> (client: Result<XaiClient, ConfigError>)
        ensures
            made_view(client) == configured(credential, base_url, timeout_seconds),
    {
        match credential {
            Err(reason) => Err(ConfigError::MissingCredential { reason }),
            Ok(key) => Ok(
                XaiClient {
                    api_key: key,
                    base_url: match base_url {
                        Some(url) => url,
                        None => String::from_str(DEFAULT_XAI_API_URL),
                    },
                    timeout_seconds: match timeout_seconds {
                        Some(seconds) => seconds,
                        None => DEFAULT_TIMEOUT_SECONDS,
                    },
                },
            ),
        }
    }

    /// The endpoint that requests go to.
    pub fn base_url(&self) -> (url: &str)
        ensures
            url@ == self@.base_url,
    {
        self.base_url.as_str()
    }

    /// The time allowed for one whole call, in seconds.
    pub fn timeout(&self) -> (seconds: u64)
        ensures
            seconds == self@.timeout_seconds,
    {
        self.timeout_seconds
    }

    /// The value of the authorization header: the credential as a bearer token.
    pub fn authorization(&self) -> (header: String)
        ensures
            header@ == "Bearer "@ + self@.api_key,
    {
        let mut header = String::from_str("Bearer ");
        header.append(self.api_key.as_str());
        header
    }
}

/// The characters of an optional text.
pub open spec fn text_view(text: Option<&str>) -> Option<Seq<char>> {
    match text {
        Some(text) => Some(text@),
        None => None,
    }
}

/// Whether a status is in the range of success.
pub fn is_success_status(status: u16) -> (success: bool)
    ensures
        success == is_success(status),
{
    200 <= status && status <= 299
}

/// Describes a call that the provider answered with the status `status`,
/// which is not one of success. `status_line` is the status as the transport
/// prints it; `body` is the response's text, `None` where it could not be read.
pub fn describe_failed_response(status: u16, status_line: &str, body: Option<&str>) -> (description:
    String)
    ensures
        description@ == failure_text(
            status,
            status_line@,
            match body {
                Some(text) => text@,
                None => UNKNOWN_ERROR@,
            },
        ),
{
    let text = match body {
        Some(text) => text,
        None => UNKNOWN_ERROR,
    };
    let mut description = String::new();
    if status == RATE_LIMIT_CODE {
        description.append("RATE LIMITED: XAI API returned 429. Response: ");
    } else {
        description.append("API request failed with status ");
        description.append(status_line);
        description.append(": ");
    }
    description.append(text);
    description
}

/// Reads a response's status: success, or the description of the failure.
/// `body` is the response's text, `None` where it could not be read.
pub fn check_response(status: ResponseStatus, body: Option<&str>) -> (outcome: Result<(), String>)
    ensures
        match outcome {
            Ok(_) => response_outcome(status@, text_view(body)) == Ok::<(), Seq<char>>(()),
            Err(description) => response_outcome(status@, text_view(body)) == Err::<
                (),
                Seq<char>,
            >(description@),
        },
{
    if status.is_success() {
        Ok(())
    } else {
        let line = status.line();
        Err(describe_failed_response(status.code(), line.as_str(), body))
    }
}

} // verus!
