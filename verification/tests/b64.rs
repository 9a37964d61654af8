use rcli::{process_decode, process_encode, Base64Format, RcliError};

#[test]
fn test_process_encode() {
    let encoded = process_encode(b"Hello World!", Base64Format::Standard);
    assert_eq!(encoded, "SGVsbG8gV29ybGQh");
}

#[test]
fn test_process_decode() {
    let decoded = process_decode(b"SGVsbG8gV29ybGQh", Base64Format::Standard).unwrap();
    assert_eq!(String::from_utf8(decoded).unwrap(), "Hello World!");
}

#[test]
fn test_encode_empty() {
    assert_eq!(process_encode(b"", Base64Format::Standard), "");
    assert_eq!(process_encode(b"", Base64Format::UrlSafe), "");
}

#[test]
fn test_encode_url_safe_alphabet() {
    // 0xfb 0xef 0xff encodes to the last two alphabet positions twice over.
    let data = [0xfbu8, 0xef, 0xff];
    assert_eq!(process_encode(&data, Base64Format::Standard), "++//");
    assert_eq!(process_encode(&data, Base64Format::UrlSafe), "--__");
}

#[test]
fn test_decode_url_safe_alphabet() {
    let decoded = process_decode(b"--__", Base64Format::UrlSafe).unwrap();
    assert_eq!(decoded, vec![0xfbu8, 0xef, 0xff]);
}

#[test]
fn test_decode_trims_whitespace() {
    let decoded = process_decode(b"  SGVsbG8gV29ybGQh\n", Base64Format::Standard).unwrap();
    assert_eq!(String::from_utf8(decoded).unwrap(), "Hello World!");
}

#[test]
fn test_decode_rejects_invalid_text() {
    let r = process_decode(b"!!!not base64!!!", Base64Format::Standard);
    assert_eq!(r.unwrap_err(), RcliError::InvalidBase64);
}

#[test]
fn test_encode_decode_round_trip() {
    let data: Vec<u8> = (0u16..=255).map(|b| b as u8).collect();
    let encoded = process_encode(&data, Base64Format::Standard);
    assert_eq!(encoded.len(), 4 * ((data.len() + 2) / 3));
    let decoded = process_decode(encoded.as_bytes(), Base64Format::Standard).unwrap();
    assert_eq!(decoded, data);
}
