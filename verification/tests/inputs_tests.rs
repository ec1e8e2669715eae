use ergo_lib_jni::error::WalletError;
use ergo_lib_jni::inputs::{
    parse_change_address, parse_context_extensions, parse_data_boxes, parse_fee, parse_headers,
    parse_input_boxes, parse_output_candidates,
};
use ergo_lib_jni::text::IntParseError;

const HEADER: &str = r#"{
    "extensionId": "d16f25b14457186df4c5f6355579cc769261ce1aebc8209949ca6feadbac5a3f",
    "difficulty": "626412390187008",
    "votes": "040000",
    "timestamp": 1618929697400,
    "size": 221,
    "stateRoot": "8ad868627ea4f7de6e2a2fe3f98fafe57f914e0f2ef3331c006def36c697f92713",
    "height": 471746,
    "nBits": 117586360,
    "version": 2,
    "id": "4caa17e62fe66ba7bd69597afdc996ae35b1ff12e0ba90c22ff288a4de10e91b",
    "adProofsRoot": "d882aaf42e0a95eb95fcce5c3705adf758e591532f733efe790ac3c404730c39",
    "transactionsRoot": "63eaa9aff76a1de3d71c81e4b2d92e8d97ae572a8e9ab9e66599ed0912dd2f8b",
    "extensionHash": "3f91f3c680beb26615fdec251aee3f81aaf5a02740806c167c0f3c929471df44",
    "powSolutions": {
      "pk": "02b3a06d6eaa8671431ba1db4dd427a77f75a5c2acbd71bfb725d38adc2b55f669",
      "w": "0279be667ef9dcbbac55a06295ce870b07029bfcdb2dce28d959f2815b16f81798",
      "n": "5939ecfee6b0d7f4",
      "d": "1234000000000000000000000000000000000000000000000000000000000000000000000000000000000000000000"
    },
    "adProofsId": "86eaa41f328bee598e33e52c9e515952ad3b7874102f762847f17318a776a7ae",
    "transactionsId": "ac80245714f25aa2fafe5494ad02a26d46e7955b8f5709f3659f1b9440797b3e",
    "parentId": "6481752bace5fa5acba5d5ef7124d48826664742d46c974c98a2d60ace229a34"
}"#;

const BOX: &str = r#"{
    "value": 44516500000,
    "ergoTree": "0008cd0327e65711a59378c59359c3e1d0f7abe906479eccb76094e50fe79d743ccc15e6",
    "assets": [],
    "creationHeight": 299218,
    "additionalRegisters": {},
    "transactionId": "0e6acf3f18b95bdc5bb1b060baa1eafe53bd89fb08b0e86d6cc00fbdd9e43189",
    "index": 2
}"#;

fn headers(n: usize) -> String {
    let items: Vec<&str> = std::iter::repeat(HEADER).take(n).collect();
    format!("[{}]", items.join(","))
}

#[test]
fn headers_need_ten() {
    let e = parse_headers("[1,2,3]").unwrap_err();
    assert!(matches!(e, WalletError::TooFewHeaders(3)));
    assert_eq!(e.message(), "Need 10 headers, got 3");
    let e = parse_headers("[]").unwrap_err();
    assert_eq!(e.message(), "Need 10 headers, got 0");
    assert_eq!(parse_headers(&headers(9)).unwrap_err().message(), "Need 10 headers, got 9");
    assert_eq!(parse_headers(&headers(10)).unwrap().len(), 10);
    // Only the first ten are read.
    let eleven_bad = format!("[{},5]", std::iter::repeat(HEADER).take(10).collect::<Vec<_>>().join(","));
    assert_eq!(parse_headers(&eleven_bad).unwrap().len(), 10);
    let first_bad = format!("[5,{}]", std::iter::repeat(HEADER).take(9).collect::<Vec<_>>().join(","));
    let e = parse_headers(&first_bad).unwrap_err();
    assert!(matches!(e, WalletError::Header(_)));
    assert!(e.message().starts_with("parse header: "));
    let e = parse_headers("not json").unwrap_err();
    assert!(matches!(e, WalletError::Headers(_)));
    assert!(e.message().starts_with("parse headers: "));
}

#[test]
fn input_boxes_wording_follows_the_operation() {
    let e = parse_input_boxes("{}", true).unwrap_err();
    assert!(e.message().starts_with("parse input: "));
    let e = parse_input_boxes("{}", false).unwrap_err();
    assert!(e.message().starts_with("parse input boxes json: "));
    let e = parse_input_boxes("[{}]", false).unwrap_err();
    assert!(matches!(e, WalletError::InputBox(_)));
    assert!(e.message().starts_with("parse box: "));
    assert_eq!(parse_input_boxes("[]", false).unwrap().len(), 0);
    assert_eq!(parse_input_boxes(&format!("[{}]", BOX), true).unwrap().len(), 1);
    let e = parse_output_candidates("7", true).unwrap_err();
    assert!(e.message().starts_with("parse output: "));
    let e = parse_output_candidates("7", false).unwrap_err();
    assert!(e.message().starts_with("parse output candidates: "));
    let e = parse_output_candidates("[7]", false).unwrap_err();
    assert!(e.message().starts_with("parse candidate: "));
}

#[test]
fn data_inputs_may_be_absent() {
    assert_eq!(parse_data_boxes("").unwrap().len(), 0);
    assert_eq!(parse_data_boxes("[]").unwrap().len(), 0);
    assert_eq!(parse_data_boxes("[ ]").unwrap().len(), 0);
    assert_eq!(parse_data_boxes(&format!("[{},{}]", BOX, BOX)).unwrap().len(), 2);
    let e = parse_data_boxes("x").unwrap_err();
    assert!(e.message().starts_with("parse data input boxes json: "));
    let e = parse_data_boxes("[1]").unwrap_err();
    assert!(e.message().starts_with("parse data box: "));
}

#[test]
fn context_extensions_are_read_as_maps() {
    assert_eq!(parse_context_extensions("").unwrap().len(), 0);
    assert_eq!(parse_context_extensions("{}").unwrap().len(), 0);
    let v = parse_context_extensions(r#"{"0": {"1": "0e0100", "2": "0402"}, "3": {}}"#).unwrap();
    assert_eq!(v.len(), 2);
    let first = v.iter().find(|(k, _)| k == "0").unwrap();
    let mut pairs = first.1.clone();
    pairs.sort();
    assert_eq!(pairs, vec![("1".to_string(), "0e0100".to_string()), ("2".to_string(), "0402".to_string())]);
    let e = parse_context_extensions("[1]").unwrap_err();
    assert!(e.message().starts_with("parse context extensions: "));
}

#[test]
fn change_address_on_either_network() {
    assert!(parse_change_address("9eatpGQdYNjTi5ZZLK7Bo7C3ms6oECPnxbQTRn6sDcBNLMYSCa8").is_ok());
    let e = parse_change_address("nope").unwrap_err();
    assert!(e.message().starts_with("change address: "));
}

#[test]
fn fee_bounds() {
    assert!(parse_fee(1_100_000).is_ok());
    assert!(parse_fee(10_800).is_ok());
    assert!(parse_fee(i64::MAX).is_ok());
    let e = parse_fee(10_799).unwrap_err();
    assert!(e.message().starts_with("fee: "));
    assert!(parse_fee(-1).is_err());
    assert!(parse_fee(0).is_err());
}

#[test]
fn error_messages() {
    assert_eq!(WalletError::ExtIndex(IntParseError::InvalidDigit).message(), "ext index parse: invalid digit found in string");
    assert_eq!(WalletError::ExtValues(4, "bad".to_string()).message(), "parse context extension for input 4: bad");
    assert_eq!(WalletError::DeriveAt(12, "x".to_string()).message(), "derive idx 12: x");
    assert_eq!(WalletError::Base64("e".to_string(), Some(17)).message(), "base64 decode: e (input len=17)");
    assert_eq!(WalletError::Base64("e".to_string(), None).message(), "base64 decode: e");
    assert_eq!(WalletError::NoInputs.message(), "input boxes cannot be empty");
    assert_eq!(WalletError::InputList(false, "c".to_string()).message(), "parse input boxes json: c");
    assert_eq!(WalletError::OutputList(true, "c".to_string()).message(), "parse output: c");
}
