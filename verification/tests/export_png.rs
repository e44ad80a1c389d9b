//! Snapshot export: path validation and PNG encoding of a captured bitmap.

use turtle_core::builtins::screenshot_target;
use turtle_core::error::RuntimeError;
use turtle_core::export::encode_bitmap;
use turtle_core::value::Value;

#[test]
fn screenshot_target_takes_the_text_path() {
    let r = screenshot_target(&[Value::Text("out.png".to_string())]);
    assert_eq!(r, Ok("out.png".to_string()));
}

#[test]
fn screenshot_target_rejects_a_non_text() {
    let r = screenshot_target(&[Value::Number(3000)]);
    assert_eq!(r, Err(RuntimeError::TypeMismatch { found: Value::Number(3000) }));
}

#[test]
fn encode_bitmap_produces_png_bytes() {
    let pixels: Vec<u8> = vec![255, 0, 0, 255];
    let r = encode_bitmap(1, 1, &pixels);
    let bytes = r.expect("a one-pixel bitmap encodes");
    // the PNG signature
    assert_eq!(&bytes[0..8], &[137, 80, 78, 71, 13, 10, 26, 10]);
}

#[test]
fn encode_bitmap_round_trips_through_the_decoder() {
    let pixels: Vec<u8> = vec![
        255, 0, 0, 255, 0, 255, 0, 255, 0, 0, 255, 255, 255, 255, 255, 255,
    ];
    let bytes = encode_bitmap(2, 2, &pixels).expect("a two-by-two bitmap encodes");
    let decoded = image::load_from_memory(&bytes).expect("the encoder wrote a readable image");
    assert_eq!(decoded.width(), 2);
    assert_eq!(decoded.height(), 2);
    assert_eq!(decoded.into_rgba8().into_raw(), pixels);
}

#[test]
fn encode_bitmap_rejects_a_short_buffer() {
    let pixels: Vec<u8> = vec![1, 2, 3];
    match encode_bitmap(2, 2, &pixels) {
        Err(RuntimeError::Encode { message }) => {
            assert_eq!(message, "bitmap length does not match its dimensions");
        }
        other => panic!("expected an encode failure, got {:?}", other),
    }
}

#[test]
fn encode_bitmap_rejects_an_empty_dimension() {
    let pixels: Vec<u8> = vec![];
    match encode_bitmap(0, 0, &pixels) {
        Err(RuntimeError::Encode { .. }) => {}
        other => panic!("expected an encode failure, got {:?}", other),
    }
}

#[test]
fn encode_bitmap_succeeds_on_every_well_formed_bitmap() {
    // a single-column and a single-row bitmap, the smallest non-square shapes
    let column: Vec<u8> = vec![0, 0, 0, 255, 255, 255, 255, 255];
    assert!(encode_bitmap(1, 2, &column).is_ok());
    let row: Vec<u8> = vec![0, 0, 0, 255, 255, 255, 255, 255];
    assert!(encode_bitmap(2, 1, &row).is_ok());
}
