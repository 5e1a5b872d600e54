//! The JSON bodies the relay builds: provider request translation,
//! escaping, reply envelopes, and the error-category mapping.

use geminipocket::provider::{
    error_category, gemini_edit_body, gemini_generate_body, provider_error_message,
    veo_edit_body, veo_generate_body, ErrorCategory, ProviderErrorInfo,
};
use geminipocket::relay::{
    auth_gate, auth_reply_body, bearer_token, cors_headers, error_reply, image_success_reply,
    invalid_body_reply, operation_reply_body, plan_generate_video, poll_reply_body, submit_reply,
    video_data_reply, PollReply, SubmitAction,
};
use geminipocket::text::{json_escape, u16_to_decimal};
use geminipocket::types::{AuthResponse, GenerateVideoRequest};

#[test]
fn error_mapping_is_total_and_repeatable() {
    assert_eq!(error_category(429), error_category(429));
    assert_eq!(error_category(429), ErrorCategory::RateLimited);
    assert_eq!(error_category(403), ErrorCategory::AccessDenied);
    assert_eq!(error_category(400), ErrorCategory::InvalidRequest);
    assert_eq!(error_category(500), ErrorCategory::ServerFault);
    assert_eq!(error_category(418), ErrorCategory::Unrecognized);
    assert_eq!(error_category(0), ErrorCategory::Unrecognized);
    assert_eq!(error_category(u16::MAX), ErrorCategory::Unrecognized);
}

#[test]
fn provider_error_messages_by_code() {
    let msg = |code: u16, text: &str| {
        provider_error_message(&ProviderErrorInfo { code, message: text.to_string() })
    };
    assert_eq!(
        msg(429, "x"),
        "Rate limit exceeded. You've reached your API quota. Please wait a few minutes before trying again."
    );
    assert_eq!(msg(403, "x"), "Access denied. Please check your API key and permissions.");
    assert_eq!(msg(400, "prompt is empty"), "Invalid request: prompt is empty");
    assert_eq!(msg(500, "x"), "Server error. Please try again later.");
    assert_eq!(msg(418, "teapot"), "API Error (418): teapot");
}

#[test]
fn decimal_rendering() {
    assert_eq!(u16_to_decimal(0), "0");
    assert_eq!(u16_to_decimal(7), "7");
    assert_eq!(u16_to_decimal(120), "120");
    assert_eq!(u16_to_decimal(u16::MAX), "65535");
}

#[test]
fn json_escaping() {
    assert_eq!(json_escape("a cat"), "a cat");
    assert_eq!(json_escape("say \"hi\""), "say \\\"hi\\\"");
    assert_eq!(json_escape("back\\slash"), "back\\\\slash");
    assert_eq!(json_escape("line\nbreak\ttab\r"), "line\\nbreak\\ttab\\r");
    assert_eq!(json_escape("\u{0001}\u{001f}"), "\\u0001\\u001f");
    assert_eq!(json_escape(""), "");
}

#[test]
fn generate_body_shape() {
    assert_eq!(
        gemini_generate_body("a cat"),
        "{\"contents\":[{\"parts\":[{\"text\":\"a cat\"}]}]}"
    );
    assert_eq!(
        gemini_generate_body("say \"hi\""),
        "{\"contents\":[{\"parts\":[{\"text\":\"say \\\"hi\\\"\"}]}]}"
    );
}

#[test]
fn edit_body_shape() {
    assert_eq!(
        gemini_edit_body("QUJD", "add a rainbow"),
        "{\"contents\":[{\"parts\":[{\"inline_data\":{\"data\":\"QUJD\",\"mime_type\":\"image/png\"}},{\"text\":\"add a rainbow\"}]}]}"
    );
}

#[test]
fn veo_generate_body_shapes() {
    assert_eq!(
        veo_generate_body("a cat", &None, &None, &None),
        "{\"instances\":[{\"prompt\":\"a cat\"}],\"parameters\":{}}"
    );
    assert_eq!(
        veo_generate_body(
            "a cat",
            &Some("dogs".to_string()),
            &Some("16:9".to_string()),
            &Some("720p".to_string()),
        ),
        "{\"instances\":[{\"negativePrompt\":\"dogs\",\"prompt\":\"a cat\"}],\"parameters\":{\"aspectRatio\":\"16:9\",\"resolution\":\"720p\"}}"
    );
    assert_eq!(
        veo_generate_body("a cat", &None, &None, &Some("1080p".to_string())),
        "{\"instances\":[{\"prompt\":\"a cat\"}],\"parameters\":{\"resolution\":\"1080p\"}}"
    );
}

#[test]
fn veo_edit_body_shape() {
    assert_eq!(
        veo_edit_body("QUJD", "image/png", "make it dance", &None, &Some("9:16".to_string()), &None),
        "{\"instances\":[{\"image\":{\"bytesBase64Encoded\":\"QUJD\",\"mimeType\":\"image/png\"},\"prompt\":\"make it dance\"}],\"parameters\":{\"aspectRatio\":\"9:16\"}}"
    );
}

#[test]
fn malformed_submission_is_rejected_before_any_provider_contact() {
    match plan_generate_video(&None) {
        SubmitAction::Reject(body) => {
            assert_eq!(body, "{\"success\":false,\"error\":\"Invalid request body\"}")
        },
        SubmitAction::Forward(body) => {
            panic!("a malformed body must not be forwarded: {}", body)
        },
    }
}

#[test]
fn well_formed_submission_is_forwarded() {
    let parsed = Some(GenerateVideoRequest {
        prompt: "a cat".to_string(),
        negative_prompt: None,
        aspect_ratio: None,
        resolution: None,
    });
    match plan_generate_video(&parsed) {
        SubmitAction::Forward(body) => {
            assert_eq!(body, "{\"instances\":[{\"prompt\":\"a cat\"}],\"parameters\":{}}")
        },
        SubmitAction::Reject(body) => panic!("unexpected rejection: {}", body),
    }
}

#[test]
fn reply_envelopes() {
    assert_eq!(invalid_body_reply(), "{\"success\":false,\"error\":\"Invalid request body\"}");
    assert_eq!(error_reply("Missing API key"), "{\"success\":false,\"error\":\"Missing API key\"}");
    assert_eq!(poll_reply_body(&PollReply::Pending), "{\"success\":true,\"done\":false}");
    assert_eq!(
        poll_reply_body(&PollReply::Ready("https://a/v.mp4".to_string())),
        "{\"success\":true,\"done\":true,\"video_uri\":\"https://a/v.mp4\"}"
    );
    assert_eq!(
        poll_reply_body(&PollReply::Failed("No video samples found".to_string())),
        "{\"success\":false,\"done\":true,\"error\":\"No video samples found\"}"
    );
}

#[test]
fn wire_bodies_for_replies() {
    let ok = submit_reply(Ok("op_123".to_string()));
    assert_eq!(
        operation_reply_body(&ok),
        "{\"success\":true,\"operation_name\":\"op_123\",\"error\":null}"
    );
    let failed = submit_reply(Err("Server error. Please try again later.".to_string()));
    assert_eq!(
        operation_reply_body(&failed),
        "{\"success\":false,\"operation_name\":null,\"error\":\"Server error. Please try again later.\"}"
    );

    let auth = AuthResponse {
        success: true,
        api_key: Some("gp_k".to_string()),
        error: None,
    };
    assert_eq!(
        auth_reply_body(&auth),
        "{\"success\":true,\"api_key\":\"gp_k\",\"error\":null}"
    );

    assert_eq!(
        image_success_reply("QUJD"),
        "{\"success\":true,\"image\":\"QUJD\"}"
    );
    assert_eq!(
        video_data_reply("QUJD"),
        "{\"success\":true,\"done\":true,\"video\":\"data:video/mp4;base64,QUJD\"}"
    );
}

#[test]
fn bearer_tokens() {
    assert_eq!(bearer_token("Bearer gp_abc"), "gp_abc");
    assert_eq!(bearer_token("gp_abc"), "gp_abc");
    assert_eq!(bearer_token("Bearer Bearer gp_abc"), "gp_abc");
    assert_eq!(bearer_token(""), "");
}

#[test]
fn auth_gate_refuses_a_missing_header() {
    assert_eq!(
        auth_gate(&None).unwrap_err(),
        "{\"success\":false,\"error\":\"Missing API key\"}"
    );
    assert_eq!(auth_gate(&Some("Bearer tok".to_string())).unwrap(), "tok");
}

#[test]
fn cors_header_values() {
    let h = cors_headers();
    assert_eq!(h.len(), 3);
    assert_eq!(h[0].0, "Access-Control-Allow-Origin");
    assert_eq!(h[0].1, "*");
    assert_eq!(h[1].0, "Access-Control-Allow-Methods");
    assert_eq!(h[1].1, "GET, POST, OPTIONS");
    assert_eq!(h[2].0, "Access-Control-Allow-Headers");
    assert_eq!(h[2].1, "Content-Type, Authorization");
}
