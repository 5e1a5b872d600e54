//! The provider-facing half of the relay: translating submissions into
//! provider request bodies, interpreting submission responses, and
//! mapping provider error codes to stable user-facing categories.

use vstd::prelude::*;

use crate::text::{decimal_of, json_escape, json_escaped, u16_to_decimal};

verus! {

/// The error envelope a provider returns with a non-2xx status.
pub struct ProviderErrorInfo {
    pub code: u16,
    pub message: String,
}

/// Stable user-facing categories for provider errors. Every code maps to
/// exactly one category.
#[derive(Debug, PartialEq, Eq, Structural, Clone, Copy)]
pub enum ErrorCategory {
    RateLimited,
    AccessDenied,
    InvalidRequest,
    ServerFault,
    Unrecognized,
}

/// The category of one provider error code. Total over all codes.
pub open spec fn spec_error_category(code: u16) -> ErrorCategory {
    if code == 429 {
        ErrorCategory::RateLimited
    } else if code == 403 {
        ErrorCategory::AccessDenied
    } else if code == 400 {
        ErrorCategory::InvalidRequest
    } else if code == 500 {
        ErrorCategory::ServerFault
    } else {
        ErrorCategory::Unrecognized
    }
}

/// Maps a provider error code to its category.
pub fn error_category(code: u16) -> (r: ErrorCategory)
    ensures
        r == spec_error_category(code),
{
    if code == 429 {
        ErrorCategory::RateLimited
    } else if code == 403 {
        ErrorCategory::AccessDenied
    } else if code == 400 {
        ErrorCategory::InvalidRequest
    } else if code == 500 {
        ErrorCategory::ServerFault
    } else {
        ErrorCategory::Unrecognized
    }
}

/// The error-category mapping is total and deterministic: it is defined
/// for every code, and equal codes always map to equal categories.
pub proof fn lemma_error_category_deterministic(code_a: u16, code_b: u16)
    requires
        code_a == code_b,
    ensures
        spec_error_category(code_a) == spec_error_category(code_b),
{
}

/// The user-facing message for one provider error envelope.
pub open spec fn spec_provider_error_message(code: u16, message: Seq<char>) -> Seq<char> {
    if code == 429 {
        "Rate limit exceeded. You've reached your API quota. Please wait a few minutes before trying again."@
    } else if code == 403 {
        "Access denied. Please check your API key and permissions."@
    } else if code == 400 {
        "Invalid request: "@ + message
    } else if code == 500 {
        "Server error. Please try again later."@
    } else {
        "API Error ("@ + decimal_of(code as int) + "): "@ + message
    }
}

/// Renders the user-facing message for one provider error envelope.
pub fn provider_error_message(err: &ProviderErrorInfo) -> (r: String)
    ensures
        r@ == spec_provider_error_message(err.code, err.message@),
{
    if err.code == 429 {
        String::from_str(
            "Rate limit exceeded. You've reached your API quota. Please wait a few minutes before trying again.",
        )
    } else if err.code == 403 {
        String::from_str("Access denied. Please check your API key and permissions.")
    } else if err.code == 400 {
        let mut s = String::from_str("Invalid request: ");
        s.append(err.message.as_str());
        s
    } else if err.code == 500 {
        String::from_str("Server error. Please try again later.")
    } else {
        let mut s = String::from_str("API Error (");
        let code_str = u16_to_decimal(err.code);
        s.append(code_str.as_str());
        s.append("): ");
        s.append(err.message.as_str());
        s
    }
}

/// Whether an HTTP status code counts as success.
pub open spec fn spec_is_success_status(code: u16) -> bool {
    200 <= code < 300
}

/// The failure message for a submission the provider refused: the mapped
/// category message when the provider's error envelope was recognized,
/// otherwise the raw status and body for diagnostics.
pub open spec fn spec_submit_failure(
    status_code: u16,
    parsed: Option<ProviderErrorInfo>,
    raw_body: Seq<char>,
) -> Seq<char> {
    match parsed {
        Some(err) => spec_provider_error_message(err.code, err.message@),
        None => "API request failed with status "@ + decimal_of(status_code as int) + ": "@
            + raw_body,
    }
}

/// Renders the failure message for a refused submission.
pub fn submit_failure_message(
    status_code: u16,
    parsed: &Option<ProviderErrorInfo>,
    raw_body: &str,
) -> (r: String)
    ensures
        r@ == spec_submit_failure(status_code, *parsed, raw_body@),
{
    match parsed {
        Some(err) => provider_error_message(err),
        None => {
            let mut s = String::from_str("API request failed with status ");
            let code_str = u16_to_decimal(status_code);
            s.append(code_str.as_str());
            s.append(": ");
            s.append(raw_body);
            s
        },
    }
}

/// Decides the outcome of one provider submission round trip.
/// `parsed_name` is what became of the 2xx body: the operation-name
/// field of a body that parsed, or the parse error's text. Success is
/// exactly a 2xx whose body parsed with a non-empty name; a 2xx body
/// that did not parse, one without a name, and every non-2xx each get
/// their own failure message.
pub fn interpret_submit_response(
    status_code: u16,
    parsed_error: &Option<ProviderErrorInfo>,
    raw_body: &str,
    parsed_name: &Result<Option<String>, String>,
) -> (r: Result<String, String>)
    ensures
        spec_is_success_status(status_code) ==> match *parsed_name {
            Ok(op) => ({
                &&& op is Some && op->0@.len() > 0 ==> (r matches Ok(name) && name@ == op->0@)
                &&& op is None || op->0@.len() == 0 ==> (r matches Err(e) && e@
                    == "No operation name in response"@)
            }),
            Err(perr) => r matches Err(e) && e@ == "Failed to parse Veo response: "@ + perr@,
        },
        !spec_is_success_status(status_code) ==> (r matches Err(e) && e@ == spec_submit_failure(
            status_code,
            *parsed_error,
            raw_body@,
        )),
{
    if 200 <= status_code && status_code < 300 {
        match parsed_name {
            Ok(Some(name)) => {
                if name.as_str().unicode_len() > 0 {
                    Ok(name.clone())
                } else {
                    Err(String::from_str("No operation name in response"))
                }
            },
            Ok(None) => Err(String::from_str("No operation name in response")),
            Err(perr) => {
                let mut m = String::from_str("Failed to parse Veo response: ");
                m.append(perr.as_str());
                Err(m)
            },
        }
    } else {
        Err(submit_failure_message(status_code, parsed_error, raw_body))
    }
}

/// The provider path a poll reads, derived from the operation name the
/// submission returned: the version prefix with the name appended.
pub fn operation_poll_url(operation_name: &str) -> (r: String)
    ensures
        r@ == "https://generativelanguage.googleapis.com/v1beta/"@ + operation_name@,
{
    let mut s = String::from_str("https://generativelanguage.googleapis.com/v1beta/");
    s.append(operation_name);
    s
}

/// One part of a provider generation response: either text or inline
/// image bytes, discriminated explicitly rather than by which field
/// happens to be present.
pub enum GeminiPart {
    PartText { text: String },
    PartImage { mime_type: String, data: String },
}

/// The content block of one response candidate.
pub struct GeminiContent {
    pub parts: Vec<GeminiPart>,
}

/// One candidate of a provider generation response.
pub struct GeminiCandidate {
    pub content: Option<GeminiContent>,
    pub finish_reason: Option<String>,
}

/// A provider generation response: zero or more candidates.
pub struct GeminiResponse {
    pub candidates: Vec<GeminiCandidate>,
}

/// The data of the first image part of a part list, if any.
pub open spec fn spec_first_image_in_parts(parts: Seq<GeminiPart>) -> Option<Seq<char>>
    decreases parts.len(),
{
    if parts.len() == 0 {
        None
    } else {
        match parts[0] {
            GeminiPart::PartImage { mime_type: _, data } => Some(data@),
            GeminiPart::PartText { text: _ } => spec_first_image_in_parts(parts.drop_first()),
        }
    }
}

/// The data of the first image part over a candidate list, scanning
/// candidates in order and skipping those without content.
pub open spec fn spec_first_image_in_candidates(candidates: Seq<GeminiCandidate>) -> Option<
    Seq<char>,
>
    decreases candidates.len(),
{
    if candidates.len() == 0 {
        None
    } else {
        let head = match candidates[0].content {
            Some(content) => spec_first_image_in_parts(content.parts@),
            None => None,
        };
        if head is Some {
            head
        } else {
            spec_first_image_in_candidates(candidates.drop_first())
        }
    }
}

fn first_image_in_parts(parts: &Vec<GeminiPart>) -> (r: Option<String>)
    ensures
        match r {
            Some(data) => spec_first_image_in_parts(parts@) == Some(data@),
            None => spec_first_image_in_parts(parts@) is None,
        },
{
    let n = parts.len();
    proof {
        assert(parts@.subrange(0, n as int) =~= parts@);
    }
    let mut i: usize = 0;
    while i < n
        invariant
            n == parts@.len(),
            i <= n,
            spec_first_image_in_parts(parts@) == spec_first_image_in_parts(
                parts@.subrange(i as int, n as int),
            ),
        decreases n - i,
    {
        proof {
            assert(parts@.subrange(i as int, n as int)[0] == parts@[i as int]);
            assert(parts@.subrange(i as int, n as int).drop_first() =~= parts@.subrange(
                i + 1 as int,
                n as int,
            ));
        }
        match &parts[i] {
            GeminiPart::PartImage { mime_type: _, data } => {
                return Some(data.clone());
            },
            GeminiPart::PartText { text: _ } => {},
        }
        i = i + 1;
    }
    proof {
        assert(parts@.subrange(n as int, n as int) =~= Seq::<GeminiPart>::empty());
    }
    None
}

/// Pulls the first inline image out of a provider generation response,
/// or says why there is none: an empty candidate list, or candidates
/// that carry no image part.
pub fn extract_image_from_response(response: &GeminiResponse) -> (r: Result<String, String>)
    ensures
        response.candidates@.len() == 0 ==> (r matches Err(e) && e@
            == "No candidates in Gemini response"@),
        response.candidates@.len() > 0 ==> match spec_first_image_in_candidates(
            response.candidates@,
        ) {
            Some(data) => r matches Ok(image) && image@ == data,
            None => r matches Err(e) && e@ == "No image data found in response"@,
        },
{
    let n = response.candidates.len();
    if n == 0 {
        return Err(String::from_str("No candidates in Gemini response"));
    }
    proof {
        assert(response.candidates@.subrange(0, n as int) =~= response.candidates@);
    }
    let mut i: usize = 0;
    while i < n
        invariant
            n == response.candidates@.len(),
            i <= n,
            spec_first_image_in_candidates(response.candidates@)
                == spec_first_image_in_candidates(
                response.candidates@.subrange(i as int, n as int),
            ),
        decreases n - i,
    {
        proof {
            assert(response.candidates@.subrange(i as int, n as int)[0] == response.candidates@[i
                as int]);
            assert(response.candidates@.subrange(i as int, n as int).drop_first()
                =~= response.candidates@.subrange(i + 1 as int, n as int));
        }
        match &response.candidates[i].content {
            Some(content) => {
                match first_image_in_parts(&content.parts) {
                    Some(data) => {
                        return Ok(data);
                    },
                    None => {},
                }
            },
            None => {},
        }
        i = i + 1;
    }
    proof {
        assert(response.candidates@.subrange(n as int, n as int)
            =~= Seq::<GeminiCandidate>::empty());
    }
    Err(String::from_str("No image data found in response"))
}

/// The `parameters` object body of a video submission: aspect ratio and
/// resolution, each present only when requested, in that key order.
pub open spec fn spec_video_params(
    aspect_ratio: Option<Seq<char>>,
    resolution: Option<Seq<char>>,
) -> Seq<char> {
    match (aspect_ratio, resolution) {
        (Some(ar), Some(res)) => "\"aspectRatio\":\""@ + json_escaped(ar) + "\",\"resolution\":\""@
            + json_escaped(res) + "\""@,
        (Some(ar), None) => "\"aspectRatio\":\""@ + json_escaped(ar) + "\""@,
        (None, Some(res)) => "\"resolution\":\""@ + json_escaped(res) + "\""@,
        (None, None) => Seq::empty(),
    }
}

fn video_params(aspect_ratio: &Option<String>, resolution: &Option<String>) -> (r: String)
    ensures
        r@ == spec_video_params(
            match *aspect_ratio {
                Some(ref ar) => Some(ar@),
                None => None,
            },
            match *resolution {
                Some(ref res) => Some(res@),
                None => None,
            },
        ),
{
    let mut s = String::new();
    match (aspect_ratio, resolution) {
        (Some(ar), Some(res)) => {
            s.append("\"aspectRatio\":\"");
            let e = json_escape(ar.as_str());
            s.append(e.as_str());
            s.append("\",\"resolution\":\"");
            let e2 = json_escape(res.as_str());
            s.append(e2.as_str());
            s.append("\"");
        },
        (Some(ar), None) => {
            s.append("\"aspectRatio\":\"");
            let e = json_escape(ar.as_str());
            s.append(e.as_str());
            s.append("\"");
        },
        (None, Some(res)) => {
            s.append("\"resolution\":\"");
            let e = json_escape(res.as_str());
            s.append(e.as_str());
            s.append("\"");
        },
        (None, None) => {},
    }
    proof {
        assert(Seq::<char>::empty() + "\"aspectRatio\":\""@ =~= "\"aspectRatio\":\""@);
        assert(Seq::<char>::empty() + "\"resolution\":\""@ =~= "\"resolution\":\""@);
    }
    s
}

/// The negative-prompt key of a submission instance, present only when
/// requested, followed by the prompt key.
pub open spec fn spec_prompt_fields(prompt: Seq<char>, negative_prompt: Option<Seq<char>>) -> Seq<
    char,
> {
    match negative_prompt {
        Some(np) => "\"negativePrompt\":\""@ + json_escaped(np) + "\",\"prompt\":\""@
            + json_escaped(prompt) + "\""@,
        None => "\"prompt\":\""@ + json_escaped(prompt) + "\""@,
    }
}

fn prompt_fields(prompt: &str, negative_prompt: &Option<String>) -> (r: String)
    ensures
        r@ == spec_prompt_fields(
            prompt@,
            match *negative_prompt {
                Some(ref np) => Some(np@),
                None => None,
            },
        ),
{
    let mut s = String::new();
    match negative_prompt {
        Some(np) => {
            s.append("\"negativePrompt\":\"");
            let e = json_escape(np.as_str());
            s.append(e.as_str());
            s.append("\",\"prompt\":\"");
        },
        None => {
            s.append("\"prompt\":\"");
        },
    }
    let ep = json_escape(prompt);
    s.append(ep.as_str());
    s.append("\"");
    proof {
        assert(Seq::<char>::empty() + "\"negativePrompt\":\""@ =~= "\"negativePrompt\":\""@);
        assert(Seq::<char>::empty() + "\"prompt\":\""@ =~= "\"prompt\":\""@);
    }
    s
}

/// The provider request body for a text-to-video submission.
pub open spec fn spec_veo_generate_body(
    prompt: Seq<char>,
    negative_prompt: Option<Seq<char>>,
    aspect_ratio: Option<Seq<char>>,
    resolution: Option<Seq<char>>,
) -> Seq<char> {
    "{\"instances\":[{"@ + spec_prompt_fields(prompt, negative_prompt)
        + "}],\"parameters\":{"@ + spec_video_params(aspect_ratio, resolution) + "}}"@
}

/// Builds the provider request body for a text-to-video submission.
pub fn veo_generate_body(
    prompt: &str,
    negative_prompt: &Option<String>,
    aspect_ratio: &Option<String>,
    resolution: &Option<String>,
) -> (r: String)
    ensures
        r@ == spec_veo_generate_body(
            prompt@,
            match *negative_prompt {
                Some(ref np) => Some(np@),
                None => None,
            },
            match *aspect_ratio {
                Some(ref ar) => Some(ar@),
                None => None,
            },
            match *resolution {
                Some(ref res) => Some(res@),
                None => None,
            },
        ),
{
    let mut s = String::from_str("{\"instances\":[{");
    let inst = prompt_fields(prompt, negative_prompt);
    s.append(inst.as_str());
    s.append("}],\"parameters\":{");
    let params = video_params(aspect_ratio, resolution);
    s.append(params.as_str());
    s.append("}}");
    s
}

/// The image object of an image-to-video submission instance.
pub open spec fn spec_image_fields(image_base64: Seq<char>, mime_type: Seq<char>) -> Seq<char> {
    "\"image\":{\"bytesBase64Encoded\":\""@ + json_escaped(image_base64) + "\",\"mimeType\":\""@
        + json_escaped(mime_type) + "\"},"@
}

/// The provider request body for an image-to-video submission.
pub open spec fn spec_veo_edit_body(
    image_base64: Seq<char>,
    mime_type: Seq<char>,
    prompt: Seq<char>,
    negative_prompt: Option<Seq<char>>,
    aspect_ratio: Option<Seq<char>>,
    resolution: Option<Seq<char>>,
) -> Seq<char> {
    "{\"instances\":[{"@ + spec_image_fields(image_base64, mime_type) + spec_prompt_fields(
        prompt,
        negative_prompt,
    ) + "}],\"parameters\":{"@ + spec_video_params(aspect_ratio, resolution) + "}}"@
}

/// Builds the provider request body for an image-to-video submission.
pub fn veo_edit_body(
    image_base64: &str,
    mime_type: &str,
    prompt: &str,
    negative_prompt: &Option<String>,
    aspect_ratio: &Option<String>,
    resolution: &Option<String>,
) -> (r: String)
    ensures
        r@ == spec_veo_edit_body(
            image_base64@,
            mime_type@,
            prompt@,
            match *negative_prompt {
                Some(ref np) => Some(np@),
                None => None,
            },
            match *aspect_ratio {
                Some(ref ar) => Some(ar@),
                None => None,
            },
            match *resolution {
                Some(ref res) => Some(res@),
                None => None,
            },
        ),
{
    let mut s = String::from_str("{\"instances\":[{");
    s.append("\"image\":{\"bytesBase64Encoded\":\"");
    let ei = json_escape(image_base64);
    s.append(ei.as_str());
    s.append("\",\"mimeType\":\"");
    let em = json_escape(mime_type);
    s.append(em.as_str());
    s.append("\"},");
    let inst = prompt_fields(prompt, negative_prompt);
    s.append(inst.as_str());
    s.append("}],\"parameters\":{");
    let params = video_params(aspect_ratio, resolution);
    s.append(params.as_str());
    s.append("}}");
    proof {
        assert(s@ =~= spec_veo_edit_body(
            image_base64@,
            mime_type@,
            prompt@,
            match *negative_prompt {
                Some(ref np) => Some(np@),
                None => None,
            },
            match *aspect_ratio {
                Some(ref ar) => Some(ar@),
                None => None,
            },
            match *resolution {
                Some(ref res) => Some(res@),
                None => None,
            },
        ));
    }
    s
}

/// The provider request body for a text-to-image generation.
pub open spec fn spec_gemini_generate_body(prompt: Seq<char>) -> Seq<char> {
    "{\"contents\":[{\"parts\":[{\"text\":\""@ + json_escaped(prompt) + "\"}]}]}"@
}

/// Builds the provider request body for a text-to-image generation.
pub fn gemini_generate_body(prompt: &str) -> (r: String)
    ensures
        r@ == spec_gemini_generate_body(prompt@),
{
    let mut s = String::from_str("{\"contents\":[{\"parts\":[{\"text\":\"");
    let e = json_escape(prompt);
    s.append(e.as_str());
    s.append("\"}]}]}");
    s
}

/// The provider request body for an image-edit generation: the image
/// bytes inline, then the instruction text.
pub open spec fn spec_gemini_edit_body(image_base64: Seq<char>, prompt: Seq<char>) -> Seq<char> {
    "{\"contents\":[{\"parts\":[{\"inline_data\":{\"data\":\""@ + json_escaped(image_base64)
        + "\",\"mime_type\":\"image/png\"}},{\"text\":\""@ + json_escaped(prompt) + "\"}]}]}"@
}

/// Builds the provider request body for an image-edit generation.
pub fn gemini_edit_body(image_base64: &str, prompt: &str) -> (r: String)
    ensures
        r@ == spec_gemini_edit_body(image_base64@, prompt@),
{
    let mut s = String::from_str("{\"contents\":[{\"parts\":[{\"inline_data\":{\"data\":\"");
    let ei = json_escape(image_base64);
    s.append(ei.as_str());
    s.append("\",\"mime_type\":\"image/png\"}},{\"text\":\"");
    let ep = json_escape(prompt);
    s.append(ep.as_str());
    s.append("\"}]}]}");
    s
}

} // verus!
