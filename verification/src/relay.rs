//! The caller-facing half of the relay: the authentication gate, the
//! submission planner, poll normalization, and the JSON reply envelopes.

use vstd::prelude::*;

use crate::provider::{
    spec_gemini_edit_body, spec_gemini_generate_body, spec_veo_edit_body, spec_veo_generate_body,
    gemini_edit_body, gemini_generate_body, veo_edit_body, veo_generate_body,
};
use crate::text::{json_escape, json_escaped, opt_view, str_starts_with};
use crate::types::{AuthResponse, EditRequest, EditVideoRequest, GenerateRequest,
    GenerateVideoRequest, VideoOperationResponse};

verus! {

/// The three headers every relay reply carries, in order: allowed
/// origin, allowed methods, allowed request headers.
pub fn cors_headers() -> (r: Vec<(String, String)>)
    ensures
        r@.len() == 3,
        r@[0].0@ == "Access-Control-Allow-Origin"@ && r@[0].1@ == "*"@,
        r@[1].0@ == "Access-Control-Allow-Methods"@ && r@[1].1@ == "GET, POST, OPTIONS"@,
        r@[2].0@ == "Access-Control-Allow-Headers"@ && r@[2].1@ == "Content-Type, Authorization"@,
{
    let mut v: Vec<(String, String)> = Vec::new();
    v.push(
        (String::from_str("Access-Control-Allow-Origin"), String::from_str("*")),
    );
    v.push(
        (String::from_str("Access-Control-Allow-Methods"), String::from_str("GET, POST, OPTIONS")),
    );
    v.push(
        (
            String::from_str("Access-Control-Allow-Headers"),
            String::from_str("Content-Type, Authorization"),
        ),
    );
    v
}

/// An authorization header with every leading `Bearer ` marker removed.
pub open spec fn spec_strip_bearer(s: Seq<char>) -> Seq<char>
    decreases s.len(),
{
    if s.len() >= 7 && s.subrange(0, 7) == "Bearer "@ {
        spec_strip_bearer(s.skip(7))
    } else {
        s
    }
}

/// Strips the `Bearer ` marker from an authorization header to obtain
/// the bare token.
pub fn bearer_token(header: &str) -> (r: String)
    ensures
        r@ == spec_strip_bearer(header@),
{
    proof {
        reveal_strlit("Bearer ");
    }
    let mut cur = String::from_str(header);
    while str_starts_with(cur.as_str(), "Bearer ")
        invariant
            spec_strip_bearer(header@) == spec_strip_bearer(cur@),
            "Bearer "@.len() == 7,
        decreases cur@.len(),
    {
        let n = cur.as_str().unicode_len();
        let rest = cur.as_str().substring_char(7, n);
        proof {
            assert(rest@ =~= cur@.skip(7));
        }
        let next = String::from_str(rest);
        cur = next;
    }
    cur
}

/// The relay's failure envelope.
pub open spec fn spec_error_reply(msg: Seq<char>) -> Seq<char> {
    "{\"success\":false,\"error\":\""@ + msg + "\"}"@
}

/// Renders the relay's failure envelope around a message.
pub fn error_reply(msg: &str) -> (r: String)
    ensures
        r@ == spec_error_reply(msg@),
{
    let mut s = String::from_str("{\"success\":false,\"error\":\"");
    s.append(msg);
    s.append("\"}");
    s
}

/// Renders the envelope for a request body that did not parse.
pub fn invalid_body_reply() -> (r: String)
    ensures
        r@ == spec_error_reply("Invalid request body"@),
{
    error_reply("Invalid request body")
}

/// The first step of every authenticated route: a missing
/// authorization header is refused with the relay's envelope before
/// anything else happens; a present one yields the bare token.
pub fn auth_gate(header: &Option<String>) -> (r: Result<String, String>)
    ensures
        header is None ==> (r matches Err(e) && e@ == spec_error_reply("Missing API key"@)),
        header matches Some(h) ==> (r matches Ok(token) && token@ == spec_strip_bearer(h@)),
{
    match header {
        Some(h) => Ok(bearer_token(h.as_str())),
        None => Err(error_reply("Missing API key")),
    }
}

/// What a poll of the provider amounts to for the caller: still
/// pending, finished with a result locator, or finished in failure.
#[derive(Debug)]
pub enum PollReply {
    Pending,
    Ready(String),
    Failed(String),
}

/// A provider operation status, as the relay reads it: the completion
/// flag, and the result locators when the provider sent a result block.
pub struct ProviderVideoStatus {
    pub done: Option<bool>,
    pub samples: Option<Vec<String>>,
}

/// Pulls the first sample locator out of a completed operation status.
/// An operation that completed without a result — a missing result
/// block as much as an empty one — is reported with the one message
/// the protocol gives that condition.
pub fn extract_video_uri(status: &ProviderVideoStatus) -> (r: Result<String, String>)
    ensures
        status.samples matches Some(v) ==> ({
            &&& v@.len() > 0 ==> (r matches Ok(uri) && uri@ == v@[0]@)
            &&& v@.len() == 0 ==> (r matches Err(e) && e@
                == "no result in completed operation"@)
        }),
        status.samples is None ==> (r matches Err(e) && e@
            == "no result in completed operation"@),
{
    match &status.samples {
        Some(v) => {
            if v.len() > 0 {
                Ok(v[0].clone())
            } else {
                Err(String::from_str("no result in completed operation"))
            }
        },
        None => Err(String::from_str("no result in completed operation")),
    }
}

/// How one provider status reads as a relay poll reply. An operation
/// is pending unless the provider says it is done; a done operation
/// without a result is a failure, never a success.
pub open spec fn poll_reply_matches(status: ProviderVideoStatus, r: PollReply) -> bool {
    if status.done != Some(true) {
        r == PollReply::Pending
    } else {
        match opt_samples_view(status.samples) {
            Some(uris) => if uris.len() > 0 {
                r matches PollReply::Ready(uri) && uri@ == uris[0]
            } else {
                r matches PollReply::Failed(e) && e@ == "no result in completed operation"@
            },
            None => r matches PollReply::Failed(e) && e@ == "no result in completed operation"@,
        }
    }
}

/// The views of an optional locator list.
pub open spec fn opt_samples_view(samples: Option<Vec<String>>) -> Option<Seq<Seq<char>>> {
    match samples {
        Some(v) => Some(v@.map_values(|s: String| s@)),
        None => None,
    }
}

/// Normalizes one provider status into the relay's tri-state poll
/// reply.
pub fn normalize_poll(status: &ProviderVideoStatus) -> (r: PollReply)
    ensures
        poll_reply_matches(*status, r),
{
    let done = match status.done {
        Some(d) => d,
        None => false,
    };
    if !done {
        return PollReply::Pending;
    }
    match extract_video_uri(status) {
        Ok(uri) => PollReply::Ready(uri),
        Err(e) => PollReply::Failed(e),
    }
}

/// A done reply that carries no result reads as a failure, never as a
/// success: completion without an artifact is an error outcome.
pub proof fn lemma_done_without_result_is_failure(status: ProviderVideoStatus, r: PollReply)
    requires
        poll_reply_matches(status, r),
        status.done == Some(true),
        status.samples is None || status.samples->0@.len() == 0,
    ensures
        r is Failed,
{
}

/// Polling is read-only: what a status reads as is a function of the
/// status alone, so two polls that see the same provider state read
/// the same way, down to the completion flag and payload.
pub proof fn lemma_poll_reply_deterministic(
    status_a: ProviderVideoStatus,
    status_b: ProviderVideoStatus,
    r_a: PollReply,
    r_b: PollReply,
)
    requires
        status_a == status_b,
        poll_reply_matches(status_a, r_a),
        poll_reply_matches(status_b, r_b),
    ensures
        r_a is Pending <==> r_b is Pending,
        r_a is Ready <==> r_b is Ready,
        r_a is Failed <==> r_b is Failed,
        r_a matches PollReply::Ready(u_a) ==> (r_b matches PollReply::Ready(u_b) && u_a@ == u_b@),
        r_a matches PollReply::Failed(e_a) ==> (r_b matches PollReply::Failed(e_b) && e_a@
            == e_b@),
{
}

/// A well-formed submission reply carries a non-empty operation
/// identifier exactly when it reports success, and an error exactly
/// when it does not.
pub open spec fn operation_reply_wf(r: VideoOperationResponse) -> bool {
    &&& r.success ==> (r.operation_name matches Some(n) && n@.len() > 0 && r.error is None)
    &&& !r.success ==> (r.operation_name is None && r.error is Some)
}

/// Wraps the outcome of a provider submission in the relay's reply.
pub fn submit_reply(outcome: Result<String, String>) -> (r: VideoOperationResponse)
    requires
        outcome matches Ok(name) ==> name@.len() > 0,
    ensures
        outcome matches Ok(name) ==> r.success && (r.operation_name matches Some(m) && m@
            == name@) && r.error is None,
        outcome matches Err(e) ==> !r.success && r.operation_name is None && (
        r.error matches Some(m) && m@ == e@),
        operation_reply_wf(r),
{
    match outcome {
        Ok(name) => VideoOperationResponse {
            success: true,
            operation_name: Some(name),
            error: None,
        },
        Err(e) => VideoOperationResponse { success: false, operation_name: None, error: Some(e) },
    }
}

/// A well-formed submission reply is exclusive: a non-empty operation
/// identifier or an error, never both and never neither.
pub proof fn lemma_operation_reply_exclusive(r: VideoOperationResponse)
    requires
        operation_reply_wf(r),
    ensures
        r.operation_name is Some <==> r.error is None,
        r.operation_name matches Some(n) ==> n@.len() > 0,
{
}

/// What the relay decides to do with one parsed submission: refuse it
/// outright with a reply body, or forward a translated body to the
/// provider.
pub enum SubmitAction {
    Reject(String),
    Forward(String),
}

/// Plans a text-to-video submission: a body that did not parse is
/// refused before any provider contact; a parsed one is translated.
pub fn plan_generate_video(parsed: &Option<GenerateVideoRequest>) -> (r: SubmitAction)
    ensures
        parsed is None ==> (r matches SubmitAction::Reject(body) && body@ == spec_error_reply(
            "Invalid request body"@,
        )),
        parsed matches Some(req) ==> (r matches SubmitAction::Forward(body) && body@
            == spec_veo_generate_body(
            req.prompt@,
            opt_view(req.negative_prompt),
            opt_view(req.aspect_ratio),
            opt_view(req.resolution),
        )),
{
    match parsed {
        Some(req) => SubmitAction::Forward(
            veo_generate_body(
                req.prompt.as_str(),
                &req.negative_prompt,
                &req.aspect_ratio,
                &req.resolution,
            ),
        ),
        None => SubmitAction::Reject(invalid_body_reply()),
    }
}

/// Plans an image-to-video submission.
pub fn plan_edit_video(parsed: &Option<EditVideoRequest>) -> (r: SubmitAction)
    ensures
        parsed is None ==> (r matches SubmitAction::Reject(body) && body@ == spec_error_reply(
            "Invalid request body"@,
        )),
        parsed matches Some(req) ==> (r matches SubmitAction::Forward(body) && body@
            == spec_veo_edit_body(
            req.image@,
            req.mime_type@,
            req.prompt@,
            opt_view(req.negative_prompt),
            opt_view(req.aspect_ratio),
            opt_view(req.resolution),
        )),
{
    match parsed {
        Some(req) => SubmitAction::Forward(
            veo_edit_body(
                req.image.as_str(),
                req.mime_type.as_str(),
                req.prompt.as_str(),
                &req.negative_prompt,
                &req.aspect_ratio,
                &req.resolution,
            ),
        ),
        None => SubmitAction::Reject(invalid_body_reply()),
    }
}

/// Plans a text-to-image request.
pub fn plan_generate_image(parsed: &Option<GenerateRequest>) -> (r: SubmitAction)
    ensures
        parsed is None ==> (r matches SubmitAction::Reject(body) && body@ == spec_error_reply(
            "Invalid request body"@,
        )),
        parsed matches Some(req) ==> (r matches SubmitAction::Forward(body) && body@
            == spec_gemini_generate_body(req.prompt@)),
{
    match parsed {
        Some(req) => SubmitAction::Forward(gemini_generate_body(req.prompt.as_str())),
        None => SubmitAction::Reject(invalid_body_reply()),
    }
}

/// Plans an image-edit request.
pub fn plan_edit_image(parsed: &Option<EditRequest>) -> (r: SubmitAction)
    ensures
        parsed is None ==> (r matches SubmitAction::Reject(body) && body@ == spec_error_reply(
            "Invalid request body"@,
        )),
        parsed matches Some(req) ==> (r matches SubmitAction::Forward(body) && body@
            == spec_gemini_edit_body(req.image@, req.prompt@)),
{
    match parsed {
        Some(req) => SubmitAction::Forward(
            gemini_edit_body(req.image.as_str(), req.prompt.as_str()),
        ),
        None => SubmitAction::Reject(invalid_body_reply()),
    }
}

/// A boolean as JSON writes it.
pub open spec fn spec_bool_lit(b: bool) -> Seq<char> {
    if b {
        "true"@
    } else {
        "false"@
    }
}

/// An optional string as a JSON value: a quoted, escaped string, or
/// `null`.
pub open spec fn spec_opt_json_string(o: Option<Seq<char>>) -> Seq<char> {
    match o {
        Some(s) => "\""@ + json_escaped(s) + "\""@,
        None => "null"@,
    }
}

fn append_opt_json_string(s: &mut String, o: &Option<String>)
    ensures
        final(s)@ == old(s)@ + spec_opt_json_string(opt_view(*o)),
{
    match o {
        Some(inner) => {
            s.append("\"");
            let e = json_escape(inner.as_str());
            s.append(e.as_str());
            s.append("\"");
        },
        None => {
            s.append("null");
        },
    }
    proof {
        assert(s@ =~= old(s)@ + spec_opt_json_string(opt_view(*o)));
    }
}

/// The submission reply as the relay writes it on the wire: success
/// flag, operation name or null, error or null, in that field order.
pub open spec fn spec_operation_reply_body(r: VideoOperationResponse) -> Seq<char> {
    "{\"success\":"@ + spec_bool_lit(r.success) + ",\"operation_name\":"@ + spec_opt_json_string(
        opt_view(r.operation_name),
    ) + ",\"error\":"@ + spec_opt_json_string(opt_view(r.error)) + "}"@
}

/// Renders the submission reply as its JSON body.
pub fn operation_reply_body(r: &VideoOperationResponse) -> (body: String)
    ensures
        body@ == spec_operation_reply_body(*r),
{
    let mut s = String::from_str("{\"success\":");
    if r.success {
        s.append("true");
    } else {
        s.append("false");
    }
    s.append(",\"operation_name\":");
    append_opt_json_string(&mut s, &r.operation_name);
    s.append(",\"error\":");
    append_opt_json_string(&mut s, &r.error);
    s.append("}");
    proof {
        assert(s@ =~= spec_operation_reply_body(*r));
    }
    s
}

/// The register or login reply as the relay writes it on the wire.
pub open spec fn spec_auth_reply_body(r: AuthResponse) -> Seq<char> {
    "{\"success\":"@ + spec_bool_lit(r.success) + ",\"api_key\":"@ + spec_opt_json_string(
        opt_view(r.api_key),
    ) + ",\"error\":"@ + spec_opt_json_string(opt_view(r.error)) + "}"@
}

/// Renders the register or login reply as its JSON body.
pub fn auth_reply_body(r: &AuthResponse) -> (body: String)
    ensures
        body@ == spec_auth_reply_body(*r),
{
    let mut s = String::from_str("{\"success\":");
    if r.success {
        s.append("true");
    } else {
        s.append("false");
    }
    s.append(",\"api_key\":");
    append_opt_json_string(&mut s, &r.api_key);
    s.append(",\"error\":");
    append_opt_json_string(&mut s, &r.error);
    s.append("}");
    proof {
        assert(s@ =~= spec_auth_reply_body(*r));
    }
    s
}

/// Renders the success envelope around an extracted image payload.
pub fn image_success_reply(image_base64: &str) -> (r: String)
    ensures
        r@ == "{\"success\":true,\"image\":\""@ + image_base64@ + "\"}"@,
{
    let mut s = String::from_str("{\"success\":true,\"image\":\"");
    s.append(image_base64);
    s.append("\"}");
    s
}

/// Renders the inline-video envelope the relay sends when it fetched
/// the finished artifact itself and returns it as a data URL.
pub fn video_data_reply(video_base64: &str) -> (r: String)
    ensures
        r@ == "{\"success\":true,\"done\":true,\"video\":\"data:video/mp4;base64,"@
            + video_base64@ + "\"}"@,
{
    let mut s = String::from_str("{\"success\":true,\"done\":true,\"video\":\"data:video/mp4;base64,");
    s.append(video_base64);
    s.append("\"}");
    s
}

/// Renders a poll reply as the relay's JSON body: pending, done with
/// the locator, or done with the failure message.
pub fn poll_reply_body(reply: &PollReply) -> (r: String)
    ensures
        reply is Pending ==> r@ == "{\"success\":true,\"done\":false}"@,
        reply matches PollReply::Ready(uri) ==> r@ == "{\"success\":true,\"done\":true,\"video_uri\":\""@
            + uri@ + "\"}"@,
        reply matches PollReply::Failed(e) ==> r@ == "{\"success\":false,\"done\":true,\"error\":\""@
            + e@ + "\"}"@,
{
    match reply {
        PollReply::Pending => String::from_str("{\"success\":true,\"done\":false}"),
        PollReply::Ready(uri) => {
            let mut s = String::from_str("{\"success\":true,\"done\":true,\"video_uri\":\"");
            s.append(uri.as_str());
            s.append("\"}");
            s
        },
        PollReply::Failed(e) => {
            let mut s = String::from_str("{\"success\":false,\"done\":true,\"error\":\"");
            s.append(e.as_str());
            s.append("\"}");
            s
        },
    }
}

/// The poll route's computing core: normalizes one provider status and
/// renders the relay's JSON reply for it.
pub fn video_status_reply(status: &ProviderVideoStatus) -> (r: String)
    ensures
        status.done != Some(true) ==> r@ == "{\"success\":true,\"done\":false}"@,
        status.done == Some(true) ==> match opt_samples_view(status.samples) {
            Some(uris) => if uris.len() > 0 {
                r@ == "{\"success\":true,\"done\":true,\"video_uri\":\""@ + uris[0] + "\"}"@
            } else {
                r@ == "{\"success\":false,\"done\":true,\"error\":\""@
                    + "no result in completed operation"@ + "\"}"@
            },
            None => r@ == "{\"success\":false,\"done\":true,\"error\":\""@
                + "no result in completed operation"@ + "\"}"@,
        },
{
    let reply = normalize_poll(status);
    poll_reply_body(&reply)
}

} // verus!
