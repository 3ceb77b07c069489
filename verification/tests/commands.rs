//! End-to-end tests of the shell command library, driven from outside the
//! verified boundary with the real outside crates linked.

use asktao_shell::bridge::{
    decode_call_result, encode_c_input, load_step, symbol_name, BridgeError, CallResult, LoadStep,
    CANDIDATE_PATH_COUNT,
};
use asktao_shell::clipboard::{
    create_sample_image, encode_snapshot, get_clipboard_images, mime_for_hint, ClipboardError,
    ClipboardImage,
};
use asktao_shell::greeting::{greet, greeting_message};
use asktao_shell::window::{
    fullscreen_from_query, hotkey_combination, main_window_label, toggle_window,
    transparency_script, WindowState,
};

use base64::Engine;

const PNG_SIGNATURE: [u8; 8] = [0x89, 0x50, 0x4E, 0x47, 0x0D, 0x0A, 0x1A, 0x0A];

const SAMPLE_PNG: [u8; 67] = [
    0x89, 0x50, 0x4E, 0x47, 0x0D, 0x0A, 0x1A, 0x0A, 0x00, 0x00, 0x00, 0x0D, 0x49, 0x48, 0x44,
    0x52, 0x00, 0x00, 0x00, 0x64, 0x00, 0x00, 0x00, 0x64, 0x08, 0x02, 0x00, 0x00, 0x00, 0x9A,
    0x9C, 0x18, 0x00, 0x00, 0x00, 0x00, 0x0A, 0x49, 0x44, 0x41, 0x54, 0x78, 0x9C, 0x63, 0x64,
    0x00, 0x00, 0x00, 0x04, 0x00, 0x01, 0x00, 0x00, 0x00, 0x00, 0x00, 0x00, 0x00, 0x00, 0x49,
    0x45, 0x4E, 0x44, 0xAE, 0x42, 0x60, 0x82,
];

fn parse_greeting_timestamp(greeting: &str) -> u128 {
    let prefix = "\u{4f60}\u{597d} : ";
    assert!(greeting.starts_with(prefix), "greeting lacks its prefix: {greeting}");
    greeting[prefix.len()..].parse().expect("greeting timestamp is not a number")
}

#[test]
fn greeting_message_renders_zero() {
    assert_eq!(greeting_message(0), "\u{4f60}\u{597d} : 0");
}

#[test]
fn greeting_message_renders_large_timestamp() {
    assert_eq!(greeting_message(1748601600123), "\u{4f60}\u{597d} : 1748601600123");
    assert_eq!(greeting_message(u64::MAX), format!("\u{4f60}\u{597d} : {}", u64::MAX));
}

#[test]
fn greet_embeds_strictly_increasing_timestamps() {
    let first = parse_greeting_timestamp(&greet());
    // The embedded timestamp has millisecond resolution: spin until the
    // clock has moved on, then expect a strictly larger value.
    let mut later = parse_greeting_timestamp(&greet());
    let mut spins: u64 = 0;
    while later == first && spins < 100_000_000 {
        later = parse_greeting_timestamp(&greet());
        spins += 1;
    }
    assert!(later > first, "timestamps did not increase: {first} then {later}");
}

#[test]
fn loader_tries_paths_in_declared_order() {
    assert_eq!(CANDIDATE_PATH_COUNT, 3);
    assert!(matches!(
        load_step(0),
        LoadStep::Attempt(p) if p == "resources/win-x64/CQ.Asktao.dll"
    ));
    assert!(matches!(load_step(1), LoadStep::Attempt(p) if p == "CQ.Asktao.dll"));
    assert!(matches!(
        load_step(2),
        LoadStep::Attempt(p) if p == "../resources/win-x64/CQ.Asktao.dll"
    ));
}

#[test]
fn loader_gives_up_after_all_paths() {
    assert!(matches!(load_step(3), LoadStep::GiveUp(BridgeError::LibraryNotFound)));
    assert!(matches!(load_step(100), LoadStep::GiveUp(BridgeError::LibraryNotFound)));
}

#[test]
fn bridge_symbol_name_is_fixed() {
    assert_eq!(symbol_name(), "get_shop_name");
}

#[test]
fn encode_c_input_rejects_embedded_null() {
    assert_eq!(encode_c_input("ab\0c"), Err(BridgeError::InvalidInputEncoding));
    assert_eq!(encode_c_input("\0"), Err(BridgeError::InvalidInputEncoding));
}

#[test]
fn encode_c_input_appends_terminator() {
    assert_eq!(encode_c_input(""), Ok(vec![0]));
    assert_eq!(encode_c_input("ab"), Ok(vec![b'a', b'b', 0]));
    assert_eq!(
        encode_c_input("\u{4f60}"),
        Ok(vec![0xE4, 0xBD, 0xA0, 0])
    );
}

#[test]
fn null_pointer_result_is_an_error() {
    assert_eq!(
        decode_call_result(CallResult::NullPointer),
        Err(BridgeError::NullResult)
    );
}

#[test]
fn invalid_utf8_result_is_an_error() {
    assert_eq!(
        decode_call_result(CallResult::Bytes(vec![0xFF, 0xFE])),
        Err(BridgeError::InvalidUtf8Result)
    );
}

#[test]
fn utf8_result_is_copied_out() {
    assert_eq!(
        decode_call_result(CallResult::Bytes(b"some shop".to_vec())),
        Ok("some shop".to_string())
    );
    assert_eq!(
        decode_call_result(CallResult::Bytes(vec![0xE4, 0xBD, 0xA0])),
        Ok("\u{4f60}".to_string())
    );
}

#[test]
fn bridge_error_messages_are_descriptive() {
    let not_found = BridgeError::LibraryNotFound.message();
    assert_eq!(
        not_found,
        "Failed to load CQ.Asktao.dll from all attempted paths: \
         [\"resources/win-x64/CQ.Asktao.dll\", \"CQ.Asktao.dll\", \
         \"../resources/win-x64/CQ.Asktao.dll\"]"
    );
    // The message lists every candidate path the loader attempts.
    for tried in 0..3 {
        match load_step(tried) {
            LoadStep::Attempt(path) => assert!(not_found.contains(path)),
            LoadStep::GiveUp(_) => panic!("loader gave up before all candidates"),
        }
    }
    assert_eq!(
        BridgeError::SymbolNotFound.message(),
        "Failed to load get_shop_name function"
    );
    let encoding = BridgeError::InvalidInputEncoding.message();
    assert!(encoding.contains("Failed to create CString from input"));
    assert_eq!(encoding, "Failed to create CString from input: embedded null byte");
    assert_eq!(
        BridgeError::NullResult.message(),
        "DLL function returned null pointer"
    );
    assert_eq!(
        BridgeError::InvalidUtf8Result.message(),
        "Failed to convert result to UTF-8 string"
    );
}

#[test]
fn sample_image_is_the_fixed_placeholder_png() {
    let png = create_sample_image(100, 100);
    assert_eq!(png, SAMPLE_PNG.to_vec());
    assert_eq!(&png[..8], &PNG_SIGNATURE);
    // The dimensions are ignored: the placeholder is always the same.
    assert_eq!(create_sample_image(1, 1), png);
}

fn decode_data_uri_payload(uri: &str) -> Vec<u8> {
    let prefix = "data:image/png;base64,";
    assert!(uri.starts_with(prefix), "not a PNG data URI: {uri}");
    base64::engine::general_purpose::STANDARD
        .decode(&uri[prefix.len()..])
        .expect("data URI payload is not valid base64")
}

#[test]
fn clipboard_unavailable_yields_one_valid_placeholder_data_uri() {
    let images = get_clipboard_images(None);
    assert_eq!(images.len(), 1);
    let bytes = decode_data_uri_payload(&images[0]);
    assert_eq!(&bytes[..8], &PNG_SIGNATURE);
    assert_eq!(bytes, SAMPLE_PNG.to_vec());
}

#[test]
fn mismatched_snapshot_falls_back_to_placeholder() {
    let snapshot = ClipboardImage { width: 2, height: 2, bytes: vec![0; 3] };
    let images = get_clipboard_images(Some(snapshot));
    assert_eq!(images.len(), 1);
    assert_eq!(images, get_clipboard_images(None));
}

#[test]
fn zero_dimension_snapshot_falls_back_to_placeholder() {
    let snapshot = ClipboardImage { width: 0, height: 0, bytes: Vec::new() };
    let images = get_clipboard_images(Some(snapshot));
    assert_eq!(images, get_clipboard_images(None));
}

#[test]
fn snapshot_is_reencoded_as_a_png_data_uri() {
    // A 2x1 image: one red pixel, one half-transparent green pixel.
    let rgba = vec![255, 0, 0, 255, 0, 255, 0, 128];
    let snapshot = ClipboardImage { width: 2, height: 1, bytes: rgba.clone() };
    let images = get_clipboard_images(Some(snapshot));
    assert_eq!(images.len(), 1);
    let png = decode_data_uri_payload(&images[0]);
    assert_eq!(&png[..8], &PNG_SIGNATURE);
    let decoded = image::load_from_memory(&png).expect("re-encoded PNG does not decode");
    assert_eq!(decoded.width(), 2);
    assert_eq!(decoded.height(), 1);
    assert_eq!(decoded.to_rgba8().into_raw(), rgba);
}

#[test]
fn encode_snapshot_reports_dimension_mismatch() {
    let snapshot = ClipboardImage { width: 2, height: 2, bytes: vec![0; 15] };
    assert_eq!(encode_snapshot(snapshot), Err(ClipboardError::DimensionMismatch));
}

#[test]
fn encode_snapshot_reports_encoder_refusal_on_zero_dimensions() {
    let snapshot = ClipboardImage { width: 0, height: 0, bytes: Vec::new() };
    assert_eq!(encode_snapshot(snapshot), Err(ClipboardError::EncodeFailed));
}

#[test]
fn mime_for_hint_covers_the_fixed_set() {
    assert_eq!(mime_for_hint("jpeg"), "image/jpeg");
    assert_eq!(mime_for_hint("jpg"), "image/jpeg");
    assert_eq!(mime_for_hint("png"), "image/png");
    assert_eq!(mime_for_hint("bmp"), "image/bmp");
    assert_eq!(mime_for_hint("gif"), "image/gif");
    assert_eq!(mime_for_hint("webp"), "image/webp");
    assert_eq!(mime_for_hint("tiff"), "image/png");
    assert_eq!(mime_for_hint(""), "image/png");
}

#[test]
fn window_toggle_enters_and_leaves_fullscreen() {
    let normal = WindowState {
        fullscreen: false,
        decorations: true,
        always_on_top: false,
        transparent: false,
    };
    let toggled = toggle_window(normal);
    assert!(toggled.fullscreen);
    assert!(!toggled.decorations);
    assert!(toggled.always_on_top);
    assert!(toggled.transparent);
    let back = toggle_window(toggled);
    assert_eq!(back, normal);
}

#[test]
fn window_toggle_twice_restores_the_fullscreen_state() {
    let fullscreen = WindowState {
        fullscreen: true,
        decorations: false,
        always_on_top: true,
        transparent: true,
    };
    assert_eq!(toggle_window(toggle_window(fullscreen)), fullscreen);
}

#[test]
fn unanswered_fullscreen_query_counts_as_not_fullscreen() {
    assert!(!fullscreen_from_query(None));
    assert!(!fullscreen_from_query(Some(false)));
    assert!(fullscreen_from_query(Some(true)));
}

#[test]
fn platform_identifiers_are_fixed() {
    assert_eq!(hotkey_combination(), "Alt+Control+D");
    assert_eq!(main_window_label(), "main");
}

#[test]
fn transparency_scripts_match_the_toggle_direction() {
    assert_eq!(
        transparency_script(true),
        "document.documentElement.classList.add('transparent-window');"
    );
    assert_eq!(
        transparency_script(false),
        "document.documentElement.classList.remove('transparent-window');"
    );
}
