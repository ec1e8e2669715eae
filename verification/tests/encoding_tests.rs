use ergo_lib_jni::ergopay::output_preview;
use ergo_lib_jni::encoding::{decode_base64_any, encode_base64_url};

#[test]
fn encodes_url_safe_without_padding() {
    assert_eq!(encode_base64_url(&b"hello".to_vec()), "aGVsbG8");
    assert_eq!(encode_base64_url(&vec![0xfb, 0xff]), "-_8");
    assert_eq!(encode_base64_url(&vec![]), "");
}

#[test]
fn decodes_all_four_forms() {
    assert_eq!(decode_base64_any("-_8").unwrap(), vec![0xfb, 0xff]);
    assert_eq!(decode_base64_any("-_8=").unwrap(), vec![0xfb, 0xff]);
    assert_eq!(decode_base64_any("+/8=").unwrap(), vec![0xfb, 0xff]);
    assert_eq!(decode_base64_any("+/8").unwrap(), vec![0xfb, 0xff]);
    assert_eq!(decode_base64_any("aGVsbG8=").unwrap(), b"hello".to_vec());
    assert_eq!(decode_base64_any("aGVsbG8").unwrap(), b"hello".to_vec());
    assert!(decode_base64_any("!!!").is_err());
    assert!(decode_base64_any("-/8").is_err());
}

#[test]
fn encoded_text_decodes_back() {
    let bytes: Vec<u8> = (0u8..=255).collect();
    let text = encode_base64_url(&bytes);
    assert_eq!(decode_base64_any(&text).unwrap(), bytes);
}

#[test]
fn output_preview_without_address_shows_unknown() {
    let tokens = vec![(Some("0cd8c9f4".to_string()), 5u64), (None, 7u64)];
    let p = output_preview(None, 1_000_000, &tokens);
    assert_eq!(p.address, "unknown");
    assert_eq!(p.value, 1_000_000);
    assert_eq!(p.tokens.len(), 2);
    assert_eq!(p.tokens[0].token_id.as_deref(), Some("0cd8c9f4"));
    assert_eq!(p.tokens[0].amount, 5);
    assert_eq!(p.tokens[1].token_id, None);
    assert_eq!(p.tokens[1].amount, 7);
}

#[test]
fn output_preview_keeps_the_address() {
    let p = output_preview(Some("9eatpGQdYNjTi5ZZLK7Bo7C3ms6oECPnxbQTRn6sDcBNLMYSCa8".to_string()), 42, &Vec::new());
    assert_eq!(p.address, "9eatpGQdYNjTi5ZZLK7Bo7C3ms6oECPnxbQTRn6sDcBNLMYSCa8");
    assert_eq!(p.value, 42);
    assert!(p.tokens.is_empty());
}
