//! The client half of the long-running-operation protocol: reading the
//! relay's submission reply, and deciding after each poll whether to
//! keep waiting, finish with the result locator, or abort.

use vstd::prelude::*;

use crate::files::{b64_of, encode_base64};
use crate::mime::{detect_mime_type, spec_extension, spec_mime_for};
use crate::text::opt_view;
use crate::types::{EditRequest, EditVideoRequest, VideoOperationResponse, VideoStatusResponse};

verus! {

/// Packs an image read from disk into an edit request: the bytes
/// base64-encoded, the media type read off the file's extension.
pub fn build_edit_request(image_bytes: &Vec<u8>, prompt: &str, image_path: &str) -> (r: EditRequest)
    requires
        image_bytes@.len() / 3 * 4 + 4 <= usize::MAX,
    ensures
        r.image@ == b64_of(image_bytes@),
        r.prompt@ == prompt@,
        r.mime_type@ == spec_mime_for(spec_extension(image_path@)),
{
    EditRequest {
        prompt: String::from_str(prompt),
        image: encode_base64(image_bytes),
        mime_type: String::from_str(detect_mime_type(image_path)),
    }
}

/// Packs an image read from disk into an image-to-video submission.
pub fn build_edit_video_request(
    image_bytes: &Vec<u8>,
    prompt: &str,
    image_path: &str,
    negative_prompt: Option<String>,
    aspect_ratio: Option<String>,
    resolution: Option<String>,
) -> (r: EditVideoRequest)
    requires
        image_bytes@.len() / 3 * 4 + 4 <= usize::MAX,
    ensures
        r.image@ == b64_of(image_bytes@),
        r.prompt@ == prompt@,
        r.mime_type@ == spec_mime_for(spec_extension(image_path@)),
        opt_view(r.negative_prompt) == opt_view(negative_prompt),
        opt_view(r.aspect_ratio) == opt_view(aspect_ratio),
        opt_view(r.resolution) == opt_view(resolution),
{
    EditVideoRequest {
        prompt: String::from_str(prompt),
        image: encode_base64(image_bytes),
        mime_type: String::from_str(detect_mime_type(image_path)),
        negative_prompt,
        aspect_ratio,
        resolution,
    }
}

/// How long the client waits before each poll, the first one included.
/// Polling is never tighter than this.
pub const POLL_INTERVAL_SECS: u64 = 10;

/// What the client does after one poll: wait out the interval and poll
/// again, finish with the result locator, or abort with a message.
#[derive(Debug)]
pub enum PollDecision {
    Wait,
    Finish(String),
    Abort(String),
}

/// The message for a reply that reports failure.
pub open spec fn spec_failure_message(error: Option<String>) -> Seq<char> {
    "Video generation failed: "@ + match error {
        Some(e) => e@,
        None => "Unknown error"@,
    }
}

/// How one relay poll reply decides the loop's next move. Only a
/// successful reply that is done with a locator finishes; a done reply
/// without a locator, or an unsuccessful reply, aborts; anything else
/// waits.
pub open spec fn poll_decision_matches(status: VideoStatusResponse, r: PollDecision) -> bool {
    if !status.success {
        r matches PollDecision::Abort(m) && m@ == spec_failure_message(status.error)
    } else if status.done == Some(true) {
        match status.video_uri {
            Some(uri) => r matches PollDecision::Finish(u) && u@ == uri@,
            None => r matches PollDecision::Abort(m) && m@
                == "Video generation completed but no URI provided"@,
        }
    } else {
        r == PollDecision::Wait
    }
}

/// Decides the loop's next move from one relay poll reply.
pub fn poll_step(status: &VideoStatusResponse) -> (r: PollDecision)
    ensures
        poll_decision_matches(*status, r),
{
    if !status.success {
        let mut m = String::from_str("Video generation failed: ");
        match &status.error {
            Some(e) => m.append(e.as_str()),
            None => m.append("Unknown error"),
        }
        return PollDecision::Abort(m);
    }
    let done = match status.done {
        Some(d) => d,
        None => false,
    };
    if done {
        match &status.video_uri {
            Some(uri) => PollDecision::Finish(uri.clone()),
            None => PollDecision::Abort(
                String::from_str("Video generation completed but no URI provided"),
            ),
        }
    } else {
        PollDecision::Wait
    }
}

/// Deciding is deterministic: two poll replies that read the same
/// decide the same move, down to the payload. In particular, polling
/// twice against an unchanged state yields the same done verdict.
pub proof fn lemma_poll_decision_deterministic(
    status_a: VideoStatusResponse,
    status_b: VideoStatusResponse,
    r_a: PollDecision,
    r_b: PollDecision,
)
    requires
        status_a == status_b,
        poll_decision_matches(status_a, r_a),
        poll_decision_matches(status_b, r_b),
    ensures
        r_a is Wait <==> r_b is Wait,
        r_a is Finish <==> r_b is Finish,
        r_a is Abort <==> r_b is Abort,
        r_a matches PollDecision::Finish(u_a) ==> (r_b matches PollDecision::Finish(u_b) && u_a@
            == u_b@),
        r_a matches PollDecision::Abort(m_a) ==> (r_b matches PollDecision::Abort(m_b) && m_a@
            == m_b@),
{
}

/// Reads the relay's submission reply on the client side: the
/// operation identifier when the relay reported success with a
/// non-empty one, an error otherwise — an empty identifier is no
/// handle to poll with, so it reads as missing.
pub fn operation_from_response(response: &VideoOperationResponse) -> (r: Result<String, String>)
    ensures
        response.success && response.operation_name is Some
            && response.operation_name->0@.len() > 0 ==> (r matches Ok(name) && name@
            == response.operation_name->0@),
        response.success && (response.operation_name is None
            || response.operation_name->0@.len() == 0) ==> (r matches Err(e) && e@
            == "No operation name in response"@),
        !response.success ==> (r matches Err(e) && e@ == spec_failure_message(response.error)),
{
    if response.success {
        match &response.operation_name {
            Some(name) => {
                if name.as_str().unicode_len() > 0 {
                    Ok(name.clone())
                } else {
                    Err(String::from_str("No operation name in response"))
                }
            },
            None => Err(String::from_str("No operation name in response")),
        }
    } else {
        let mut m = String::from_str("Video generation failed: ");
        match &response.error {
            Some(e) => m.append(e.as_str()),
            None => m.append("Unknown error"),
        }
        Err(m)
    }
}

/// The message for an edit submission the relay refused.
pub open spec fn spec_edit_failure_message(error: Option<String>) -> Seq<char> {
    "Video editing failed: "@ + match error {
        Some(e) => e@,
        None => "Unknown error"@,
    }
}

/// Reads the relay's reply to an image-to-video submission; only the
/// failure wording differs from the text-to-video reading.
pub fn operation_from_edit_response(response: &VideoOperationResponse) -> (r: Result<
    String,
    String,
>)
    ensures
        response.success && response.operation_name is Some
            && response.operation_name->0@.len() > 0 ==> (r matches Ok(name) && name@
            == response.operation_name->0@),
        response.success && (response.operation_name is None
            || response.operation_name->0@.len() == 0) ==> (r matches Err(e) && e@
            == "No operation name in response"@),
        !response.success ==> (r matches Err(e) && e@ == spec_edit_failure_message(
            response.error,
        )),
{
    if response.success {
        match &response.operation_name {
            Some(name) => {
                if name.as_str().unicode_len() > 0 {
                    Ok(name.clone())
                } else {
                    Err(String::from_str("No operation name in response"))
                }
            },
            None => Err(String::from_str("No operation name in response")),
        }
    } else {
        let mut m = String::from_str("Video editing failed: ");
        match &response.error {
            Some(e) => m.append(e.as_str()),
            None => m.append("Unknown error"),
        }
        Err(m)
    }
}

/// The relay URL the client polls, derived from the operation name
/// the submission returned.
pub fn video_status_path(api_url: &str, operation_name: &str) -> (r: String)
    ensures
        r@ == api_url@ + "/video_status/"@ + operation_name@,
{
    let mut s = String::from_str(api_url);
    s.append("/video_status/");
    s.append(operation_name);
    s
}

/// One thing the poll loop can observe: a relay reply, or a transport
/// failure of the poll call itself.
pub enum PollEvent {
    Reply(VideoStatusResponse),
    NetFailure(String),
}

/// How the loop ends, if it ends: the result locator, or a failure
/// message.
#[derive(Debug)]
pub enum PollRun {
    Completed(String),
    Failed(String),
    StillPending,
}

/// Whether one event ends the loop.
pub open spec fn event_decisive(e: PollEvent) -> bool {
    match e {
        PollEvent::NetFailure(_) => true,
        PollEvent::Reply(status) => !status.success || status.done == Some(true),
    }
}

/// The index of the first loop-ending event, or the length when none
/// ends it.
pub open spec fn first_decisive_at(events: Seq<PollEvent>, i: int) -> int
    decreases events.len() - i,
{
    if i < 0 || i >= events.len() {
        events.len() as int
    } else if event_decisive(events[i]) {
        i
    } else {
        first_decisive_at(events, i + 1)
    }
}

/// How the loop-ending event determines the outcome. A transport
/// failure aborts with its message; a reply ends the loop exactly as
/// `poll_decision_matches` says.
pub open spec fn event_outcome_matches(e: PollEvent, r: PollRun) -> bool {
    match e {
        PollEvent::NetFailure(msg) => r matches PollRun::Failed(m) && m@
            == "Failed to check video status: "@ + msg@,
        PollEvent::Reply(status) => if !status.success {
            r matches PollRun::Failed(m) && m@ == spec_failure_message(status.error)
        } else if status.done == Some(true) {
            match status.video_uri {
                Some(uri) => r matches PollRun::Completed(u) && u@ == uri@,
                None => r matches PollRun::Failed(m) && m@
                    == "Video generation completed but no URI provided"@,
            }
        } else {
            false
        },
    }
}

/// Runs the poll loop's decisions over a finite record of poll
/// outcomes: events before the first decisive one only re-arm the
/// wait; the first decisive event alone settles the outcome, and
/// nothing after it is consulted. A transport failure is decisive the
/// moment it happens: the loop never retries past it.
pub fn drive_poll(events: &Vec<PollEvent>) -> (r: PollRun)
    ensures
        ({
            let k = first_decisive_at(events@, 0);
            &&& forall|j: int| 0 <= j < k ==> !event_decisive(events@[j])
            &&& k == events@.len() ==> r is StillPending
            &&& k < events@.len() ==> event_outcome_matches(events@[k], r)
        }),
{
    let n = events.len();
    let mut i: usize = 0;
    while i < n
        invariant
            n == events@.len(),
            i <= n,
            first_decisive_at(events@, 0) == first_decisive_at(events@, i as int),
            forall|j: int| 0 <= j < i ==> !event_decisive(events@[j]),
        decreases n - i,
    {
        match &events[i] {
            PollEvent::NetFailure(msg) => {
                let mut m = String::from_str("Failed to check video status: ");
                m.append(msg.as_str());
                return PollRun::Failed(m);
            },
            PollEvent::Reply(status) => {
                match poll_step(status) {
                    PollDecision::Wait => {},
                    PollDecision::Finish(uri) => {
                        return PollRun::Completed(uri);
                    },
                    PollDecision::Abort(m) => {
                        return PollRun::Failed(m);
                    },
                }
            },
        }
        i = i + 1;
    }
    PollRun::StillPending
}

/// Once the first decisive event has happened, appending further poll
/// outcomes changes nothing: the loop's outcome is settled by the
/// record up to and including that event.
pub proof fn lemma_poll_stops_at_first_decisive(events: Seq<PollEvent>, extra: Seq<PollEvent>)
    requires
        first_decisive_at(events, 0) < events.len(),
    ensures
        first_decisive_at(events + extra, 0) == first_decisive_at(events, 0),
        (events + extra)[first_decisive_at(events, 0)] == events[first_decisive_at(events, 0)],
{
    lemma_first_decisive_bounds(events, 0);
    lemma_first_decisive_extend(events, extra, 0);
    assert((events + extra)[first_decisive_at(events, 0)] == events[first_decisive_at(
        events,
        0,
    )]);
}

/// The first decisive index never lies before where the search starts,
/// nor past the end of the record.
proof fn lemma_first_decisive_bounds(events: Seq<PollEvent>, i: int)
    requires
        0 <= i <= events.len(),
    ensures
        i <= first_decisive_at(events, i) <= events.len(),
    decreases events.len() - i,
{
    if i < events.len() && !event_decisive(events[i]) {
        lemma_first_decisive_bounds(events, i + 1);
    }
}

proof fn lemma_first_decisive_extend(events: Seq<PollEvent>, extra: Seq<PollEvent>, i: int)
    requires
        0 <= i <= events.len(),
        first_decisive_at(events, i) < events.len(),
    ensures
        first_decisive_at(events + extra, i) == first_decisive_at(events, i),
    decreases events.len() - i,
{
    if i < events.len() {
        assert((events + extra)[i] == events[i]);
        if !event_decisive(events[i]) {
            lemma_first_decisive_extend(events, extra, i + 1);
        }
    }
}

} // verus!
