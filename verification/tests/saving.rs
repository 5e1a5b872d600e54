//! Saving artifacts: payload decoding, media-type detection, output
//! placement, and file naming.

use geminipocket::client::build_edit_request;
use geminipocket::files::{
    decode_base64, encode_base64, image_file_name, local_timestamp_compact, plan_image_save,
    plan_video_save, resolve_output_dir, video_file_name,
};
use geminipocket::mime::detect_mime_type;
use geminipocket::provider::{
    extract_image_from_response, GeminiCandidate, GeminiContent, GeminiPart, GeminiResponse,
};

#[test]
fn media_type_by_extension() {
    assert_eq!(detect_mime_type("photo.png"), "image/png");
    assert_eq!(detect_mime_type("photo.jpg"), "image/jpeg");
    assert_eq!(detect_mime_type("photo.jpeg"), "image/jpeg");
    assert_eq!(detect_mime_type("photo.gif"), "image/gif");
    assert_eq!(detect_mime_type("photo.webp"), "image/webp");
    assert_eq!(detect_mime_type("photo.PNG"), "image/jpeg");
    assert_eq!(detect_mime_type("photo"), "image/jpeg");
    assert_eq!(detect_mime_type("archive.tar.gz"), "image/jpeg");
    assert_eq!(detect_mime_type("dir.png/photo"), "image/jpeg");
    assert_eq!(detect_mime_type(".png"), "image/jpeg");
    assert_eq!(detect_mime_type("shots/.png"), "image/jpeg");
    assert_eq!(detect_mime_type("shots/cat.png"), "image/png");
    assert_eq!(detect_mime_type(""), "image/jpeg");
}

#[test]
fn base64_round_trip_through_the_engine() {
    let bytes = vec![b'h', b'i'];
    let encoded = encode_base64(&bytes);
    assert_eq!(encoded, "aGk=");
    assert_eq!(decode_base64(&encoded).unwrap(), bytes);
    assert_eq!(encode_base64(&Vec::new()), "");
    assert!(decode_base64("not base64!!").is_err());
}

#[test]
fn edit_request_carries_the_encoded_image() {
    let bytes = vec![b'A', b'B', b'C'];
    let req = build_edit_request(&bytes, "add a rainbow", "photo.webp");
    assert_eq!(req.image, "QUJD");
    assert_eq!(req.prompt, "add a rainbow");
    assert_eq!(req.mime_type, "image/webp");
}

#[test]
fn output_directory_selection() {
    let chosen = Some("/home/u/media".to_string());
    let fallback = Some("/home/u/Pictures".to_string());
    assert_eq!(resolve_output_dir(true, &chosen, &fallback), ".");
    assert_eq!(resolve_output_dir(false, &chosen, &fallback), "/home/u/media");
    assert_eq!(resolve_output_dir(false, &None, &fallback), "/home/u/Pictures");
    assert_eq!(resolve_output_dir(false, &None, &None), ".");
}

#[test]
fn timestamped_names() {
    assert_eq!(
        image_file_name(&None, "20240101_120000"),
        "gemini_image_20240101_120000.png"
    );
    assert_eq!(
        image_file_name(&Some("my-art".to_string()), "20240101_120000"),
        "my-art_20240101_120000.png"
    );
    assert_eq!(
        video_file_name(&None, "20240101_120000"),
        "gemini_video_20240101_120000.mp4"
    );
    assert_eq!(
        video_file_name(&Some("clip".to_string()), "20240101_120000"),
        "clip_20240101_120000.mp4"
    );
}

#[test]
fn video_save_plan_ends_in_mp4() {
    let plan = plan_video_save(&None, &None, &None, true, "20240101_120000");
    assert_eq!(plan.directory, ".");
    assert_eq!(plan.file_name, "gemini_video_20240101_120000.mp4");
    assert!(plan.file_name.ends_with(".mp4"));
}

#[test]
fn image_save_plan_decodes_and_names() {
    let plan = plan_image_save("aGk=", &None, &None, &None, true, "20240101_120000");
    let (bytes, location) = plan.unwrap();
    assert_eq!(bytes, vec![b'h', b'i']);
    assert_eq!(location.directory, ".");
    assert_eq!(location.file_name, "gemini_image_20240101_120000.png");
    assert!(plan_image_save("!!!", &None, &None, &None, true, "x").is_err());
}

#[test]
fn wall_clock_stamp_has_the_compact_shape() {
    let stamp = local_timestamp_compact();
    assert_eq!(stamp.len(), 15);
    assert!(stamp.chars().enumerate().all(|(i, c)| if i == 8 {
        c == '_'
    } else {
        c.is_ascii_digit()
    }));
}

#[test]
fn first_image_part_wins() {
    let response = GeminiResponse {
        candidates: vec![
            GeminiCandidate { content: None, finish_reason: None },
            GeminiCandidate {
                content: Some(GeminiContent {
                    parts: vec![
                        GeminiPart::PartText { text: "caption".to_string() },
                        GeminiPart::PartImage {
                            mime_type: "image/png".to_string(),
                            data: "Zmlyc3Q=".to_string(),
                        },
                        GeminiPart::PartImage {
                            mime_type: "image/png".to_string(),
                            data: "c2Vjb25k".to_string(),
                        },
                    ],
                }),
                finish_reason: None,
            },
        ],
    };
    assert_eq!(extract_image_from_response(&response).unwrap(), "Zmlyc3Q=");
}

#[test]
fn image_extraction_errors() {
    let response = GeminiResponse { candidates: vec![] };
    assert_eq!(
        extract_image_from_response(&response).unwrap_err(),
        "No candidates in Gemini response"
    );
    let response = GeminiResponse {
        candidates: vec![GeminiCandidate {
            content: Some(GeminiContent {
                parts: vec![GeminiPart::PartText { text: "words only".to_string() }],
            }),
            finish_reason: Some("STOP".to_string()),
        }],
    };
    assert_eq!(
        extract_image_from_response(&response).unwrap_err(),
        "No image data found in response"
    );
}
