use std::str::FromStr;

use rcli::cli::base64::prese_base64_format;
use rcli::cli::csv::parse_format;
use rcli::cli::text::prese_format;
use rcli::{Base64Format, OutputFormat, RcliError, TextSignFormat};

#[test]
fn test_prese_format_known_schemes() {
    assert_eq!(prese_format("blake3"), Ok(TextSignFormat::Blake3));
    assert_eq!(prese_format("ed25519"), Ok(TextSignFormat::Ed25519));
    assert_eq!(prese_format("rsa"), Err(RcliError::UnsupportedScheme));
    assert_eq!(prese_format(""), Err(RcliError::UnsupportedScheme));
    assert_eq!(prese_format("BLAKE3"), Err(RcliError::UnsupportedScheme));
}

#[test]
fn test_text_sign_format_from_str_and_back() {
    let f = TextSignFormat::from_str("ed25519").unwrap();
    assert_eq!(f, TextSignFormat::Ed25519);
    assert_eq!(f.as_str(), "ed25519");
    assert_eq!(TextSignFormat::Blake3.as_str(), "blake3");
}

#[test]
fn test_prese_base64_format() {
    assert_eq!(prese_base64_format("standard"), Ok(Base64Format::Standard));
    assert_eq!(prese_base64_format("urlsafe"), Ok(Base64Format::UrlSafe));
    assert_eq!(prese_base64_format("base32"), Err(RcliError::UnsupportedFormat));
    assert_eq!(Base64Format::from_str("standard").unwrap().as_str(), "standard");
}

#[test]
fn test_parse_output_format() {
    assert_eq!(parse_format("json"), Ok(OutputFormat::Json));
    assert_eq!(parse_format("yaml"), Ok(OutputFormat::Yaml));
    assert_eq!(parse_format("toml"), Err(RcliError::UnsupportedFormat));
    assert_eq!(OutputFormat::from_str("yaml").unwrap().as_str(), "yaml");
}

#[test]
fn test_bytes_eq() {
    assert!(rcli::bytes_eq(b"abc", b"abc"));
    assert!(!rcli::bytes_eq(b"abc", b"abd"));
    assert!(!rcli::bytes_eq(b"abc", b"ab"));
    assert!(rcli::bytes_eq(b"", b""));
}
