use std::str::FromStr;

use blob::{
    clamped_capacity, Blob, Crypt, DecodeError, IoError, RangeError, Shape, ShapeError, Standard,
    StandardNoPad, StringSink, TextSink, UrlSafe, UrlSafeNoPad,
};

const DATA: [u8; 5] = [1, 2, 3, 4, 5];

#[test]
fn test_blob() {
    let blob: Blob = Blob::from(&DATA[..]);

    let encoded = blob.encode_base64();

    let decoded_blob = Blob::decode_base64(encoded.as_str()).unwrap();

    assert_eq!(blob, decoded_blob);
}

#[test]
fn encode_known_value() {
    let blob: Blob = Blob::from_vec(vec![1, 2, 3, 4, 5]);
    assert_eq!(blob.encode_base64(), "AQIDBAU=");
}

#[test]
fn decode_known_value() {
    let blob: Blob = Blob::decode_base64("AQIDBAU=").unwrap();
    assert_eq!(blob.as_bytes(), &[1, 2, 3, 4, 5]);
}

#[test]
fn from_str_decodes() {
    let my_blob: Blob = Blob::from_str("AQIDBAU=").unwrap();
    assert_eq!(my_blob.as_bytes(), &[1, 2, 3, 4, 5]);
}

#[test]
fn round_trip_every_codec() {
    let bytes: Vec<u8> = (0u16..=255).map(|b| b as u8).collect();

    let b: Blob<Standard> = Blob::from_vec(bytes.clone());
    assert_eq!(
        Blob::<Standard>::decode_base64(b.encode_base64().as_str())
            .unwrap()
            .into_vec(),
        bytes
    );

    let b: Blob<StandardNoPad> = Blob::from_vec(bytes.clone());
    assert_eq!(
        Blob::<StandardNoPad>::decode_base64(b.encode_base64().as_str())
            .unwrap()
            .into_vec(),
        bytes
    );

    let b: Blob<UrlSafe> = Blob::from_vec(bytes.clone());
    assert_eq!(
        Blob::<UrlSafe>::decode_base64(b.encode_base64().as_str())
            .unwrap()
            .into_vec(),
        bytes
    );

    let b: Blob<UrlSafeNoPad> = Blob::from_vec(bytes.clone());
    assert_eq!(
        Blob::<UrlSafeNoPad>::decode_base64(b.encode_base64().as_str())
            .unwrap()
            .into_vec(),
        bytes
    );

    let b: Blob<Crypt> = Blob::from_vec(bytes.clone());
    assert_eq!(
        Blob::<Crypt>::decode_base64(b.encode_base64().as_str())
            .unwrap()
            .into_vec(),
        bytes
    );
}

#[test]
fn streaming_matches_encode() {
    let blob: Blob = Blob::from_vec(vec![0xDE, 0xAD, 0xBE, 0xEF, 0x42]);
    let mut sink = StringSink::new();
    blob.encode_to(&mut sink).unwrap();
    assert_eq!(sink.into_string(), blob.encode_base64());
}

struct RejectingSink;

impl TextSink for RejectingSink {
    fn write_text(&mut self, _piece: &str) -> Result<(), IoError> {
        Err(IoError)
    }
}

#[test]
fn streaming_reports_rejected_write() {
    let blob: Blob = Blob::from_vec(vec![1, 2, 3]);
    let mut sink = RejectingSink;
    assert_eq!(blob.encode_to(&mut sink), Err(IoError));
}

#[test]
fn shape_text_and_values_agree() {
    let from_text: Blob = Blob::from_shape(Shape::Text(String::from("AQIDBAU="))).unwrap();
    assert_eq!(from_text.as_bytes(), &[1, 2, 3, 4, 5]);

    let from_values: Blob = Blob::from_shape(Shape::Values(vec![1, 2, 3, 4, 5])).unwrap();
    assert_eq!(from_values.as_bytes(), &[1, 2, 3, 4, 5]);

    let from_bytes: Blob = Blob::from_shape(Shape::Bytes(vec![1, 2, 3, 4, 5])).unwrap();

    assert_eq!(from_text, from_values);
    assert_eq!(from_text, from_bytes);
}

#[test]
fn shape_values_overflow_rejected() {
    let r: Result<Blob, ShapeError> = Blob::from_shape(Shape::Values(vec![1, 2, 3000, 4, 5]));
    assert_eq!(r.unwrap_err(), ShapeError::Range(RangeError { value: 3000 }));
}

#[test]
fn shape_text_bad_base64_rejected() {
    let r: Result<Blob, ShapeError> = Blob::from_shape(Shape::Text(String::from("!!!!")));
    match r.unwrap_err() {
        ShapeError::Decode(DecodeError::InvalidByte(index, byte)) => {
            assert_eq!(index, 0);
            assert_eq!(byte, b'!');
        }
        other => panic!("unexpected error {:?}", other),
    }
}

#[test]
fn push_value_validates_range() {
    let mut blob: Blob = Blob::new();
    blob.push_value(0).unwrap();
    blob.push_value(255).unwrap();
    assert_eq!(blob.push_value(256), Err(RangeError { value: 256 }));
    assert_eq!(blob.as_bytes(), &[0, 255]);
}

#[test]
fn from_values_stops_at_first_oversize() {
    let r: Result<Blob, RangeError> = Blob::from_values(&[7, 300, 400]);
    assert_eq!(r.unwrap_err(), RangeError { value: 300 });
}

#[test]
fn codec_isolation() {
    let bytes = vec![0xFB, 0xFF];

    let standard: Blob<Standard> = Blob::from_vec(bytes.clone());
    let standard_text = standard.encode_base64();
    assert!(standard_text.contains('+') || standard_text.contains('/'));
    assert!(!standard_text.contains('-') && !standard_text.contains('_'));

    let url_safe: Blob<UrlSafe> = Blob::from_vec(bytes.clone());
    let url_safe_text = url_safe.encode_base64();
    assert!(url_safe_text.contains('-') || url_safe_text.contains('_'));
    assert!(!url_safe_text.contains('+') && !url_safe_text.contains('/'));

    let padded: Blob<Standard> = Blob::from_vec(vec![1]);
    let unpadded: Blob<StandardNoPad> = Blob::from_vec(vec![1]);
    assert!(padded.encode_base64().contains('='));
    assert!(!unpadded.encode_base64().contains('='));
}

#[test]
fn decoding_respects_alphabet() {
    let bytes = vec![0xFB, 0xFF];
    let url_safe_text = Blob::<UrlSafe>::from_vec(bytes.clone()).encode_base64();
    assert!(Blob::<Standard>::decode_base64(url_safe_text.as_str()).is_err());
    assert_eq!(
        Blob::<UrlSafe>::decode_base64(url_safe_text.as_str())
            .unwrap()
            .into_vec(),
        bytes
    );
}

#[test]
fn capacity_hint_honored() {
    let blob: Blob = Blob::with_capacity(100);
    assert!(blob.capacity() >= 100);
    assert_eq!(blob.len(), 0);
}

#[test]
fn reserve_keeps_contents() {
    let mut blob: Blob = Blob::from_vec(vec![9, 8]);
    blob.reserve(500);
    assert!(blob.capacity() >= 502);
    assert_eq!(blob.as_bytes(), &[9, 8]);
}

#[test]
fn empty_input() {
    let empty: Blob = Blob::new();
    assert_eq!(empty.encode_base64(), "");

    let decoded: Blob = Blob::decode_base64("").unwrap();
    assert_eq!(decoded.len(), 0);
}

#[test]
fn default_is_empty() {
    let blob: Blob = Default::default();
    assert_eq!(blob.len(), 0);
}

#[test]
fn append_base64_appends() {
    let mut blob: Blob = Blob::from_vec(vec![1]);
    blob.append_base64("AgM=").unwrap();
    assert_eq!(blob.as_bytes(), &[1, 2, 3]);
}

#[test]
fn append_base64_failure_leaves_blob_unchanged() {
    let mut blob: Blob = Blob::from_vec(vec![1]);
    assert!(blob.append_base64("!not base64!").is_err());
    assert_eq!(blob.as_bytes(), &[1]);
}

#[test]
fn invalid_length_reported() {
    assert_eq!(
        Blob::<StandardNoPad>::decode_base64("A").unwrap_err(),
        DecodeError::InvalidLength
    );
}

#[test]
fn invalid_last_symbol_reported() {
    match Blob::<Standard>::decode_base64("AB==").unwrap_err() {
        DecodeError::InvalidLastSymbol(index, byte) => {
            assert_eq!(index, 1);
            assert_eq!(byte, b'B');
        }
        other => panic!("unexpected error {:?}", other),
    }
}

#[test]
fn with_config_keeps_bytes() {
    let blob: Blob<Standard> = Blob::from_vec(vec![0xFB, 0xFF]);
    let retagged: Blob<UrlSafe> = blob.with_config();
    assert_eq!(retagged.as_bytes(), &[0xFB, 0xFF]);
    assert!(retagged.encode_base64().contains('-') || retagged.encode_base64().contains('_'));
}

#[test]
fn buffer_operations_delegate() {
    let mut blob: Blob = Blob::new();
    blob.push(10);
    blob.append_bytes(&[20, 30]);
    assert_eq!(blob.len(), 3);
    assert_eq!(blob.as_bytes(), &[10, 20, 30]);

    let copy = blob.clone();
    assert_eq!(copy, blob);
    assert_eq!(blob.into_vec(), vec![10, 20, 30]);
}

#[test]
fn clamped_capacity_caps_hints() {
    assert_eq!(clamped_capacity(Some(10)), 10);
    assert_eq!(clamped_capacity(Some(4096)), 4096);
    assert_eq!(clamped_capacity(Some(99999)), 4096);
    assert_eq!(clamped_capacity(None), 0);
}

#[test]
fn no_pad_is_padded_with_padding_stripped() {
    let bytes = vec![1u8, 2, 3, 4, 5];

    let padded = Blob::<Standard>::from_vec(bytes.clone()).encode_base64();
    let unpadded = Blob::<StandardNoPad>::from_vec(bytes.clone()).encode_base64();
    assert_eq!(unpadded, padded.trim_end_matches('='));

    let url_padded = Blob::<UrlSafe>::from_vec(bytes.clone()).encode_base64();
    let url_unpadded = Blob::<UrlSafeNoPad>::from_vec(bytes).encode_base64();
    assert_eq!(url_unpadded, url_padded.trim_end_matches('='));
}
