//! The translation gateway: provider dispatch, request construction and
//! response extraction.
//!
//! Each call is one outbound HTTP request. The gateway decides everything
//! up to the wire — which endpoint, which headers, which body bytes — and
//! everything after it — which part of the response is the answer. The
//! transport itself is the surrounding application's.

use crate::json::json_field;
use crate::json::json_index;
use crate::json::json_str;
use crate::json::parsed_json;
use crate::json::Json;
use crate::text::escaped;
use crate::text::json_escape;
use crate::text::str_eq;
use vstd::prelude::*;
use vstd::string::StringExecFns;

verus! {

/// The closed set of supported LLM backends.
#[derive(Clone, Copy, Debug, PartialEq, Eq, Structural)]
pub enum Provider {
    Gemini,
    Openai,
    Ollama,
}

/// A gateway call failed before, on, or after the wire.
#[derive(Debug, Clone, PartialEq, Eq)]
pub enum GatewayError {
    /// The configured provider name is none of the supported ones.
    UnknownProvider(String),
    /// The selected hosted provider has no API key configured.
    MissingCredential(Provider),
    /// The network transport failed; carries the transport's message.
    TransportError(String),
    /// The response was not the shape the provider documents.
    InvalidResponseFormat(Provider),
}

/// A configuration snapshot, passed to the gateway by value per call.
/// `overlay_transparency` is carried verbatim as the stored text; only the
/// UI layer interprets it.
#[derive(Debug, Clone)]
pub struct ConfigData {
    pub llm_provider: String,
    pub gemini_api_key: String,
    pub gemini_model: String,
    pub openai_api_key: String,
    pub openai_model: String,
    pub ollama_url: String,
    pub ollama_model: String,
    pub target_language: String,
    pub overlay_transparency: String,
}

/// One outbound HTTP request, ready for a transport: POST `body` as JSON to
/// `url`, with a bearer `Authorization` header where one is set.
#[derive(Debug, Clone, PartialEq, Eq)]
pub struct HttpRequest {
    pub url: String,
    pub bearer_token: Option<String>,
    pub body: String,
}

/// The ghost image of an `HttpRequest`.
pub struct RequestParts {
    pub url: Seq<char>,
    pub bearer: Option<Seq<char>>,
    pub body: Seq<char>,
}

impl HttpRequest {
    /// What this request says, character for character.
    pub open spec fn parts(self) -> RequestParts {
        RequestParts {
            url: self.url@,
            bearer: match self.bearer_token {
                Some(t) => Some(t@),
                None => None,
            },
            body: self.body@,
        }
    }
}

/// The provider a configured name selects.
pub open spec fn spec_provider_of(name: Seq<char>) -> Option<Provider> {
    if name == "gemini"@ {
        Some(Provider::Gemini)
    } else if name == "openai"@ {
        Some(Provider::Openai)
    } else if name == "ollama"@ {
        Some(Provider::Ollama)
    } else {
        None
    }
}

/// Resolve a configured provider name.
pub fn provider_of(name: &str) -> (r: Option<Provider>)
    ensures
        r == spec_provider_of(name@),
{
    if str_eq(name, "gemini") {
        Some(Provider::Gemini)
    } else if str_eq(name, "openai") {
        Some(Provider::Openai)
    } else if str_eq(name, "ollama") {
        Some(Provider::Ollama)
    } else {
        None
    }
}

/// The fixed translation instruction, parameterized by the target language
/// alone.
pub open spec fn translate_prompt_chars(lang: Seq<char>) -> Seq<char> {
    "Translate the text in this image to "@ + lang
        + ". Only provide the translation, no explanations."@
}

/// Build the translation instruction for one target language.
pub fn translate_prompt(target_language: &str) -> (r: String)
    ensures
        r@ == translate_prompt_chars(target_language@),
{
    let mut s = String::from_str("Translate the text in this image to ");
    s.append(target_language);
    s.append(". Only provide the translation, no explanations.");
    s
}

/// The fixed follow-up template: the earlier translation as context, then
/// the user's question.
pub open spec fn ask_prompt_chars(context: Seq<char>, question: Seq<char>) -> Seq<char> {
    "Based on this translation:\n\n"@ + context + "\n\nUser question: "@ + question
        + "\n\nProvide a helpful answer."@
}

/// Combine context and question into the follow-up prompt.
pub fn ask_prompt(question: &str, context: &str) -> (r: String)
    ensures
        r@ == ask_prompt_chars(context@, question@),
{
    let mut s = String::from_str("Based on this translation:\n\n");
    s.append(context);
    s.append("\n\nUser question: ");
    s.append(question);
    s.append("\n\nProvide a helpful answer.");
    s
}

/// The characters of an optional string slice.
pub open spec fn opt_chars(o: Option<&str>) -> Option<Seq<char>> {
    match o {
        Some(s) => Some(s@),
        None => None,
    }
}

/// Provider A's endpoint: model and key stand in the URL itself.
pub open spec fn gemini_url_chars(model: Seq<char>, key: Seq<char>) -> Seq<char> {
    "https://generativelanguage.googleapis.com/v1beta/models/"@ + model + ":generateContent?key="@
        + key
}

/// Provider A's `generateContent` body: one user turn whose parts are the
/// prompt and, for image requests, the inline PNG.
pub open spec fn gemini_body_chars(prompt: Seq<char>, image: Option<Seq<char>>) -> Seq<char> {
    match image {
        Some(img) => "{\"contents\":[{\"parts\":[{\"text\":\""@ + escaped(prompt)
            + "\"},{\"inline_data\":{\"mime_type\":\"image/png\",\"data\":\""@ + escaped(img)
            + "\"}}]}]}"@,
        None => "{\"contents\":[{\"parts\":[{\"text\":\""@ + escaped(prompt) + "\"}]}]}"@,
    }
}

/// Provider B's chat-completions body: with an image the content is a
/// two-part array carrying the prompt and a data URI, without one it is the
/// plain prompt string.
pub open spec fn openai_body_chars(
    model: Seq<char>,
    prompt: Seq<char>,
    image: Option<Seq<char>>,
) -> Seq<char> {
    match image {
        Some(img) => "{\"model\":\""@ + escaped(model)
            + "\",\"messages\":[{\"role\":\"user\",\"content\":[{\"type\":\"text\",\"text\":\""@
            + escaped(prompt)
            + "\"},{\"type\":\"image_url\",\"image_url\":{\"url\":\"data:image/png;base64,"@
            + escaped(img) + "\"}}]}],\"max_tokens\":1000}"@,
        None => "{\"model\":\""@ + escaped(model) + "\",\"messages\":[{\"role\":\"user\",\"content\":\""@
            + escaped(prompt) + "\"}],\"max_tokens\":1000}"@,
    }
}

/// Provider C's `generate` body: prompt, optional single-element image
/// array, streaming off.
pub open spec fn ollama_body_chars(
    model: Seq<char>,
    prompt: Seq<char>,
    image: Option<Seq<char>>,
) -> Seq<char> {
    match image {
        Some(img) => "{\"model\":\""@ + escaped(model) + "\",\"prompt\":\""@ + escaped(prompt)
            + "\",\"images\":[\""@ + escaped(img) + "\"],\"stream\":false}"@,
        None => "{\"model\":\""@ + escaped(model) + "\",\"prompt\":\""@ + escaped(prompt)
            + "\",\"stream\":false}"@,
    }
}

/// Provider C's endpoint under its configured base URL.
pub open spec fn ollama_url_chars(base: Seq<char>) -> Seq<char> {
    base + "/api/generate"@
}

fn gemini_url(model: &str, key: &str) -> (r: String)
    ensures
        r@ == gemini_url_chars(model@, key@),
{
    let mut s = String::from_str("https://generativelanguage.googleapis.com/v1beta/models/");
    s.append(model);
    s.append(":generateContent?key=");
    s.append(key);
    s
}

fn gemini_body(prompt: &str, image: Option<&str>) -> (r: String)
    ensures
        r@ == gemini_body_chars(prompt@, opt_chars(image)),
{
    let mut s = String::from_str("{\"contents\":[{\"parts\":[{\"text\":\"");
    s.append(json_escape(prompt).as_str());
    match image {
        Some(img) => {
            s.append("\"},{\"inline_data\":{\"mime_type\":\"image/png\",\"data\":\"");
            s.append(json_escape(img).as_str());
            s.append("\"}}]}]}");
        },
        None => {
            s.append("\"}]}]}");
        },
    }
    s
}

fn openai_body(model: &str, prompt: &str, image: Option<&str>) -> (r: String)
    ensures
        r@ == openai_body_chars(model@, prompt@, opt_chars(image)),
{
    let mut s = String::from_str("{\"model\":\"");
    s.append(json_escape(model).as_str());
    match image {
        Some(img) => {
            s.append("\",\"messages\":[{\"role\":\"user\",\"content\":[{\"type\":\"text\",\"text\":\"");
            s.append(json_escape(prompt).as_str());
            s.append("\"},{\"type\":\"image_url\",\"image_url\":{\"url\":\"data:image/png;base64,");
            s.append(json_escape(img).as_str());
            s.append("\"}}]}],\"max_tokens\":1000}");
        },
        None => {
            s.append("\",\"messages\":[{\"role\":\"user\",\"content\":\"");
            s.append(json_escape(prompt).as_str());
            s.append("\"}],\"max_tokens\":1000}");
        },
    }
    s
}

fn ollama_body(model: &str, prompt: &str, image: Option<&str>) -> (r: String)
    ensures
        r@ == ollama_body_chars(model@, prompt@, opt_chars(image)),
{
    let mut s = String::from_str("{\"model\":\"");
    s.append(json_escape(model).as_str());
    s.append("\",\"prompt\":\"");
    s.append(json_escape(prompt).as_str());
    match image {
        Some(img) => {
            s.append("\",\"images\":[\"");
            s.append(json_escape(img).as_str());
            s.append("\"],\"stream\":false}");
        },
        None => {
            s.append("\",\"stream\":false}");
        },
    }
    s
}

/// The request a configuration and a prompt determine, or the error that
/// stops it before any network activity: an unknown provider name first,
/// then a missing credential for the hosted providers.
pub open spec fn spec_request(c: ConfigData, prompt: Seq<char>, image: Option<Seq<char>>) -> Result<
    RequestParts,
    GatewayError,
> {
    match spec_provider_of(c.llm_provider@) {
        None => Err(GatewayError::UnknownProvider(c.llm_provider)),
        Some(Provider::Gemini) => if c.gemini_api_key@.len() == 0 {
            Err(GatewayError::MissingCredential(Provider::Gemini))
        } else {
            Ok(
                RequestParts {
                    url: gemini_url_chars(c.gemini_model@, c.gemini_api_key@),
                    bearer: None,
                    body: gemini_body_chars(prompt, image),
                },
            )
        },
        Some(Provider::Openai) => if c.openai_api_key@.len() == 0 {
            Err(GatewayError::MissingCredential(Provider::Openai))
        } else {
            Ok(
                RequestParts {
                    url: "https://api.openai.com/v1/chat/completions"@,
                    bearer: Some(c.openai_api_key@),
                    body: openai_body_chars(c.openai_model@, prompt, image),
                },
            )
        },
        Some(Provider::Ollama) => Ok(
            RequestParts {
                url: ollama_url_chars(c.ollama_url@),
                bearer: None,
                body: ollama_body_chars(c.ollama_model@, prompt, image),
            },
        ),
    }
}

/// Build the one outbound request for a prompt and an optional image, or
/// fail fast without any network activity.
pub fn build_request(c: &ConfigData, prompt: &str, image: Option<&str>) -> (r: Result<
    HttpRequest,
    GatewayError,
>)
    ensures
        r matches Ok(req) ==> spec_request(*c, prompt@, opt_chars(image)) == Ok::<
            RequestParts,
            GatewayError,
        >(req.parts()),
        r matches Err(e) ==> spec_request(*c, prompt@, opt_chars(image)) == Err::<
            RequestParts,
            GatewayError,
        >(e),
{
    match provider_of(c.llm_provider.as_str()) {
        None => Err(GatewayError::UnknownProvider(c.llm_provider.clone())),
        Some(Provider::Gemini) => {
            if c.gemini_api_key.as_str().is_empty() {
                return Err(GatewayError::MissingCredential(Provider::Gemini));
            }
            Ok(
                HttpRequest {
                    url: gemini_url(c.gemini_model.as_str(), c.gemini_api_key.as_str()),
                    bearer_token: None,
                    body: gemini_body(prompt, image),
                },
            )
        },
        Some(Provider::Openai) => {
            if c.openai_api_key.as_str().is_empty() {
                return Err(GatewayError::MissingCredential(Provider::Openai));
            }
            Ok(
                HttpRequest {
                    url: String::from_str("https://api.openai.com/v1/chat/completions"),
                    bearer_token: Some(c.openai_api_key.clone()),
                    body: openai_body(c.openai_model.as_str(), prompt, image),
                },
            )
        },
        Some(Provider::Ollama) => {
            let mut url = c.ollama_url.clone();
            url.append("/api/generate");
            Ok(
                HttpRequest {
                    url,
                    bearer_token: None,
                    body: ollama_body(c.ollama_model.as_str(), prompt, image),
                },
            )
        },
    }
}

/// The request that `translate` sends: the fixed translation instruction for
/// the configured target language, plus the image.
pub open spec fn spec_translate_request(c: ConfigData, image: Seq<char>) -> Result<
    RequestParts,
    GatewayError,
> {
    spec_request(c, translate_prompt_chars(c.target_language@), Some(image))
}

/// Decide the outbound request for translating an image, or the error that
/// stops the call before any network activity.
pub fn translate_request(c: &ConfigData, image_base64: &str) -> (r: Result<
    HttpRequest,
    GatewayError,
>)
    ensures
        r matches Ok(req) ==> spec_translate_request(*c, image_base64@) == Ok::<
            RequestParts,
            GatewayError,
        >(req.parts()),
        r matches Err(e) ==> spec_translate_request(*c, image_base64@) == Err::<
            RequestParts,
            GatewayError,
        >(e),
{
    let prompt = translate_prompt(c.target_language.as_str());
    build_request(c, prompt.as_str(), Some(image_base64))
}

/// The request that `ask` sends: the follow-up prompt built from the earlier
/// translation and the user's question, with no image.
pub open spec fn spec_ask_request(c: ConfigData, question: Seq<char>, context: Seq<char>) -> Result<
    RequestParts,
    GatewayError,
> {
    spec_request(c, ask_prompt_chars(context, question), None)
}

/// Decide the outbound request for a follow-up question, or the error that
/// stops the call before any network activity.
pub fn ask_request(c: &ConfigData, question: &str, context: &str) -> (r: Result<
    HttpRequest,
    GatewayError,
>)
    ensures
        r matches Ok(req) ==> spec_ask_request(*c, question@, context@) == Ok::<
            RequestParts,
            GatewayError,
        >(req.parts()),
        r matches Err(e) ==> spec_ask_request(*c, question@, context@) == Err::<
            RequestParts,
            GatewayError,
        >(e),
{
    let prompt = ask_prompt(question, context);
    build_request(c, prompt.as_str(), None)
}

/// The text provider A's response carries: `candidates[0].content.parts[0].text`.
pub open spec fn gemini_extracted(j: Json) -> Option<Seq<char>> {
    match json_field(j, "candidates"@) {
        Some(c) => match json_index(c, 0) {
            Some(c0) => match json_field(c0, "content"@) {
                Some(ct) => match json_field(ct, "parts"@) {
                    Some(ps) => match json_index(ps, 0) {
                        Some(p0) => match json_field(p0, "text"@) {
                            Some(t) => json_str(t),
                            None => None,
                        },
                        None => None,
                    },
                    None => None,
                },
                None => None,
            },
            None => None,
        },
        None => None,
    }
}

/// The text provider B's response carries: `choices[0].message.content`.
pub open spec fn openai_extracted(j: Json) -> Option<Seq<char>> {
    match json_field(j, "choices"@) {
        Some(c) => match json_index(c, 0) {
            Some(c0) => match json_field(c0, "message"@) {
                Some(m) => match json_field(m, "content"@) {
                    Some(ct) => json_str(ct),
                    None => None,
                },
                None => None,
            },
            None => None,
        },
        None => None,
    }
}

/// The text provider C's response carries: the top-level `response` string.
pub open spec fn ollama_extracted(j: Json) -> Option<Seq<char>> {
    match json_field(j, "response"@) {
        Some(r) => json_str(r),
        None => None,
    }
}

/// The text a provider's parsed response carries, if it has the documented
/// shape.
pub open spec fn spec_extracted(p: Provider, j: Json) -> Option<Seq<char>> {
    match p {
        Provider::Gemini => gemini_extracted(j),
        Provider::Openai => openai_extracted(j),
        Provider::Ollama => ollama_extracted(j),
    }
}

/// Pull the translated text out of provider A's response shape.
pub fn extract_gemini_text(j: &Json) -> (r: Result<String, GatewayError>)
    ensures
        r matches Ok(s) ==> gemini_extracted(*j) == Some(s@),
        r matches Err(e) ==> gemini_extracted(*j) is None && e == GatewayError::InvalidResponseFormat(
            Provider::Gemini,
        ),
{
    let err = GatewayError::InvalidResponseFormat(Provider::Gemini);
    let c = match crate::json::get_field(j, "candidates") {
        Some(v) => v,
        None => return Err(err),
    };
    let c0 = match crate::json::get_index(c, 0) {
        Some(v) => v,
        None => return Err(err),
    };
    let ct = match crate::json::get_field(c0, "content") {
        Some(v) => v,
        None => return Err(err),
    };
    let ps = match crate::json::get_field(ct, "parts") {
        Some(v) => v,
        None => return Err(err),
    };
    let p0 = match crate::json::get_index(ps, 0) {
        Some(v) => v,
        None => return Err(err),
    };
    let t = match crate::json::get_field(p0, "text") {
        Some(v) => v,
        None => return Err(err),
    };
    match crate::json::get_text(t) {
        Some(s) => Ok(s),
        None => Err(err),
    }
}

/// Pull the translated text out of provider B's response shape.
pub fn extract_openai_text(j: &Json) -> (r: Result<String, GatewayError>)
    ensures
        r matches Ok(s) ==> openai_extracted(*j) == Some(s@),
        r matches Err(e) ==> openai_extracted(*j) is None && e == GatewayError::InvalidResponseFormat(
            Provider::Openai,
        ),
{
    let err = GatewayError::InvalidResponseFormat(Provider::Openai);
    let c = match crate::json::get_field(j, "choices") {
        Some(v) => v,
        None => return Err(err),
    };
    let c0 = match crate::json::get_index(c, 0) {
        Some(v) => v,
        None => return Err(err),
    };
    let m = match crate::json::get_field(c0, "message") {
        Some(v) => v,
        None => return Err(err),
    };
    let ct = match crate::json::get_field(m, "content") {
        Some(v) => v,
        None => return Err(err),
    };
    match crate::json::get_text(ct) {
        Some(s) => Ok(s),
        None => Err(err),
    }
}

/// Pull the generated text out of provider C's response shape.
pub fn extract_ollama_text(j: &Json) -> (r: Result<String, GatewayError>)
    ensures
        r matches Ok(s) ==> ollama_extracted(*j) == Some(s@),
        r matches Err(e) ==> ollama_extracted(*j) is None && e == GatewayError::InvalidResponseFormat(
            Provider::Ollama,
        ),
{
    let err = GatewayError::InvalidResponseFormat(Provider::Ollama);
    let f = match crate::json::get_field(j, "response") {
        Some(v) => v,
        None => return Err(err),
    };
    match crate::json::get_text(f) {
        Some(s) => Ok(s),
        None => Err(err),
    }
}

/// Extract the provider's answer from a raw response body. Total over
/// arbitrary input: any text that is not JSON of the documented shape comes
/// back as `InvalidResponseFormat`, never as a panic.
pub fn extract_response(provider: Provider, response_body: &str) -> (r: Result<
    String,
    GatewayError,
>)
    ensures
        r matches Ok(s) ==> (parsed_json(response_body@) matches Some(j) && spec_extracted(
            provider,
            j,
        ) == Some(s@)),
        r matches Err(e) ==> e == GatewayError::InvalidResponseFormat(provider),
        r is Err <==> (parsed_json(response_body@) is None || spec_extracted(
            provider,
            parsed_json(response_body@).unwrap(),
        ) is None),
{
    let j = match crate::json::parse_json(response_body) {
        Some(j) => j,
        None => return Err(GatewayError::InvalidResponseFormat(provider)),
    };
    match provider {
        Provider::Gemini => extract_gemini_text(&j),
        Provider::Openai => extract_openai_text(&j),
        Provider::Ollama => extract_ollama_text(&j),
    }
}

} // verus!
