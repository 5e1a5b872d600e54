//! The long-running-operation protocol: submission replies, poll
//! normalization, the client loop's decisions, and the stub provider.

use geminipocket::client::{
    drive_poll, operation_from_edit_response, operation_from_response, poll_step, PollDecision,
    PollEvent, PollRun,
};
use geminipocket::client::video_status_path;
use geminipocket::provider::{interpret_submit_response, operation_poll_url, ProviderErrorInfo};
use geminipocket::relay::{
    extract_video_uri, normalize_poll, submit_reply, video_status_reply, PollReply,
    ProviderVideoStatus,
};
use geminipocket::stub::StubProvider;
use geminipocket::types::{VideoOperationResponse, VideoStatusResponse};

fn pending_reply() -> VideoStatusResponse {
    VideoStatusResponse { success: true, done: Some(false), video_uri: None, error: None }
}

fn done_reply(uri: &str) -> VideoStatusResponse {
    VideoStatusResponse {
        success: true,
        done: Some(true),
        video_uri: Some(uri.to_string()),
        error: None,
    }
}

#[test]
fn submit_reply_success_carries_only_an_operation() {
    let r = submit_reply(Ok("op_123".to_string()));
    assert!(r.success);
    assert_eq!(r.operation_name.as_deref(), Some("op_123"));
    assert!(r.error.is_none());
}

#[test]
fn submit_reply_failure_carries_only_an_error() {
    let r = submit_reply(Err("Rate limit exceeded".to_string()));
    assert!(!r.success);
    assert!(r.operation_name.is_none());
    assert_eq!(r.error.as_deref(), Some("Rate limit exceeded"));
}

#[test]
fn poll_twice_same_status_same_verdict() {
    let status = pending_reply();
    let a = poll_step(&status);
    let b = poll_step(&status);
    assert!(matches!(a, PollDecision::Wait));
    assert!(matches!(b, PollDecision::Wait));

    let status = done_reply("https://provider/video/abc.mp4");
    let a = poll_step(&status);
    let b = poll_step(&status);
    match (a, b) {
        (PollDecision::Finish(u1), PollDecision::Finish(u2)) => assert_eq!(u1, u2),
        other => panic!("expected matching finish decisions, got {:?}", other),
    }
}

#[test]
fn normalize_twice_same_provider_state_same_done() {
    let status = ProviderVideoStatus { done: Some(false), samples: None };
    assert!(matches!(normalize_poll(&status), PollReply::Pending));
    assert!(matches!(normalize_poll(&status), PollReply::Pending));
}

#[test]
fn stub_terminal_state_is_sticky() {
    let mut provider = StubProvider {
        remaining: 2,
        samples: Some(vec!["https://provider/video/abc.mp4".to_string()]),
    };
    assert!(matches!(normalize_poll(&provider.status()), PollReply::Pending));
    provider.tick();
    assert!(matches!(normalize_poll(&provider.status()), PollReply::Pending));
    provider.tick();
    match normalize_poll(&provider.status()) {
        PollReply::Ready(uri) => assert_eq!(uri, "https://provider/video/abc.mp4"),
        other => panic!("expected a ready reply, got {:?}", other),
    }
    // however much more time passes, the operation stays done
    provider.tick();
    provider.tick();
    assert!(!matches!(normalize_poll(&provider.status()), PollReply::Pending));
}

#[test]
fn done_with_empty_result_set_is_an_error() {
    let status = ProviderVideoStatus { done: Some(true), samples: Some(vec![]) };
    match normalize_poll(&status) {
        PollReply::Failed(e) => assert_eq!(e, "no result in completed operation"),
        other => panic!("expected a failure, got {:?}", other),
    }
    let status = ProviderVideoStatus { done: Some(true), samples: None };
    match normalize_poll(&status) {
        PollReply::Failed(e) => assert_eq!(e, "no result in completed operation"),
        other => panic!("expected a failure, got {:?}", other),
    }
}

#[test]
fn poll_route_bodies_by_provider_state() {
    let pending = ProviderVideoStatus { done: Some(false), samples: None };
    assert_eq!(video_status_reply(&pending), "{\"success\":true,\"done\":false}");
    let unknown = ProviderVideoStatus { done: None, samples: None };
    assert_eq!(video_status_reply(&unknown), "{\"success\":true,\"done\":false}");
    let ready = ProviderVideoStatus {
        done: Some(true),
        samples: Some(vec!["https://a/v.mp4".to_string()]),
    };
    assert_eq!(
        video_status_reply(&ready),
        "{\"success\":true,\"done\":true,\"video_uri\":\"https://a/v.mp4\"}"
    );
    let empty = ProviderVideoStatus { done: Some(true), samples: Some(vec![]) };
    assert_eq!(
        video_status_reply(&empty),
        "{\"success\":false,\"done\":true,\"error\":\"no result in completed operation\"}"
    );
}

#[test]
fn extract_video_uri_cases() {
    let status = ProviderVideoStatus {
        done: Some(true),
        samples: Some(vec!["https://a/1.mp4".to_string(), "https://a/2.mp4".to_string()]),
    };
    assert_eq!(extract_video_uri(&status).unwrap(), "https://a/1.mp4");
    let status = ProviderVideoStatus { done: Some(true), samples: Some(vec![]) };
    assert_eq!(extract_video_uri(&status).unwrap_err(), "no result in completed operation");
    let status = ProviderVideoStatus { done: Some(true), samples: None };
    assert_eq!(extract_video_uri(&status).unwrap_err(), "no result in completed operation");
}

#[test]
fn poll_paths_derive_from_the_operation_name() {
    assert_eq!(
        operation_poll_url("models/veo/operations/op_123"),
        "https://generativelanguage.googleapis.com/v1beta/models/veo/operations/op_123"
    );
    assert_eq!(
        video_status_path("https://relay.example", "op_123"),
        "https://relay.example/video_status/op_123"
    );
}

#[test]
fn end_to_end_submit_then_poll_to_completion() {
    // submit "a cat", receive op_123
    let op = interpret_submit_response(200, &None, "", &Ok(Some("op_123".to_string())));
    assert_eq!(op.unwrap(), "op_123");

    // first poll pending, second poll done with the locator
    let events = vec![
        PollEvent::Reply(pending_reply()),
        PollEvent::Reply(done_reply("https://provider/video/abc.mp4")),
    ];
    match drive_poll(&events) {
        PollRun::Completed(uri) => assert_eq!(uri, "https://provider/video/abc.mp4"),
        other => panic!("expected completion, got {:?}", other),
    }
}

#[test]
fn network_failure_ends_the_loop_at_once() {
    // the decisive failure comes before a reply that would complete;
    // the loop must stop at the failure and never see the later reply
    let events = vec![
        PollEvent::Reply(pending_reply()),
        PollEvent::NetFailure("connection reset".to_string()),
        PollEvent::Reply(done_reply("https://provider/video/abc.mp4")),
    ];
    match drive_poll(&events) {
        PollRun::Failed(m) => {
            assert_eq!(m, "Failed to check video status: connection reset")
        },
        other => panic!("expected a failure, got {:?}", other),
    }
}

#[test]
fn done_without_uri_aborts() {
    let status = VideoStatusResponse {
        success: true,
        done: Some(true),
        video_uri: None,
        error: None,
    };
    match poll_step(&status) {
        PollDecision::Abort(m) => {
            assert_eq!(m, "Video generation completed but no URI provided")
        },
        other => panic!("expected an abort, got {:?}", other),
    }
}

#[test]
fn unsuccessful_reply_aborts_with_the_relay_error() {
    let status = VideoStatusResponse {
        success: false,
        done: None,
        video_uri: None,
        error: Some("quota exhausted".to_string()),
    };
    match poll_step(&status) {
        PollDecision::Abort(m) => {
            assert_eq!(m, "Video generation failed: quota exhausted")
        },
        other => panic!("expected an abort, got {:?}", other),
    }
    let status = VideoStatusResponse { success: false, done: None, video_uri: None, error: None };
    match poll_step(&status) {
        PollDecision::Abort(m) => assert_eq!(m, "Video generation failed: Unknown error"),
        other => panic!("expected an abort, got {:?}", other),
    }
}

#[test]
fn exhausted_record_is_still_pending() {
    let events = vec![PollEvent::Reply(pending_reply()), PollEvent::Reply(pending_reply())];
    assert!(matches!(drive_poll(&events), PollRun::StillPending));
}

#[test]
fn operation_from_response_cases() {
    let r = VideoOperationResponse {
        success: true,
        operation_name: Some("op_9".to_string()),
        error: None,
    };
    assert_eq!(operation_from_response(&r).unwrap(), "op_9");

    let r = VideoOperationResponse { success: true, operation_name: None, error: None };
    assert_eq!(operation_from_response(&r).unwrap_err(), "No operation name in response");

    let r = VideoOperationResponse {
        success: true,
        operation_name: Some(String::new()),
        error: None,
    };
    assert_eq!(operation_from_response(&r).unwrap_err(), "No operation name in response");

    let r = VideoOperationResponse {
        success: false,
        operation_name: None,
        error: Some("bad prompt".to_string()),
    };
    assert_eq!(operation_from_response(&r).unwrap_err(), "Video generation failed: bad prompt");
    assert_eq!(
        operation_from_edit_response(&r).unwrap_err(),
        "Video editing failed: bad prompt"
    );
}

#[test]
fn submit_interpretation_covers_every_status() {
    // a 2xx with an empty name is a failure, not an empty success
    let r = interpret_submit_response(204, &None, "", &Ok(Some(String::new())));
    assert_eq!(r.unwrap_err(), "No operation name in response");
    let r = interpret_submit_response(200, &None, "", &Ok(None));
    assert_eq!(r.unwrap_err(), "No operation name in response");

    // a 2xx whose body did not parse keeps the parse error's text
    let r = interpret_submit_response(200, &None, "", &Err("expected value at line 1".to_string()));
    assert_eq!(r.unwrap_err(), "Failed to parse Veo response: expected value at line 1");

    // a recognized provider envelope maps to its category message
    let parsed = Some(ProviderErrorInfo { code: 429, message: "slow down".to_string() });
    let r = interpret_submit_response(429, &parsed, "ignored", &Err(String::new()));
    assert_eq!(
        r.unwrap_err(),
        "Rate limit exceeded. You've reached your API quota. Please wait a few minutes before trying again."
    );

    // an unrecognized body is passed through raw with the status
    let r = interpret_submit_response(502, &None, "<html>bad gateway</html>", &Err(String::new()));
    assert_eq!(r.unwrap_err(), "API request failed with status 502: <html>bad gateway</html>");
}
