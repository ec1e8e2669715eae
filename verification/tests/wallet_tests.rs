use ergo_lib::ergotree_ir::chain::address::{Address, AddressEncoder, NetworkPrefix};
use ergo_lib::ergotree_ir::ergo_tree::ErgoTree;
use ergo_lib::ergotree_ir::serialization::SigmaSerializable;
use ergo_lib_jni::ergopay::{parse_reduced_tx, sign_reduced_tx};
use ergo_lib_jni::error::WalletError;
use ergo_lib_jni::inputs::parse_change_address;
use ergo_lib_jni::keys::{derive_wallet_secrets, mnemonic_to_address};
use ergo_lib_jni::tx::{build_reduced_tx, sign_transaction_json};

const POOL_ADDRESS: &str = "3gb1RZucekcRdda82TSNS4FZSREhGLoi1FxGDmMZdVeLtYYixPRviEdYireoM9RqC6Jf4kx85Y1jmUg5XzGgqdjpkhHm7kJZdgUR3VBwuLZuyHVqdSNv3eanqpknYsXtUwvUA16HFwNa3HgVRAnGC8zj8U7kksrfjycAM1yb19BB4TYR2BKWN7mpvoeoTuAKcAFH26cM46CEYsDRDn832wVNTLAmzz4Q6FqE29H9euwYzKiebgxQbWUxtupvfSbKaHpQcZAo5Dhyc6PFPyGVFZVRGZZ4Kftgi1NMRnGwKG7NTtXsFMsJP6A7yvLy8UZaMPe69BUAkpbSJdcWem3WpPUE7UpXv4itDkS5KVVaFtVyfx8PQxzi2eotP2uXtfairHuKinbpSFTSFKW3GxmXaw7vQs1JuVd8NhNShX6hxSqCP6sxojrqBxA48T2KcxNrmE3uFk7Pt4vPPdMAS4PW6UU82UD9rfhe3SMytK6DkjCocuRwuNqFoy4k25TXbGauTNgKuPKY3CxgkTpw9WfWsmtei178tLefhUEGJueueXSZo7negPYtmcYpoMhCuv4G1JZc283Q7f3mNXS";

const MNEMONIC: &str = "slow silly start wash bundle suffer bulb ancient height spin express remind today effort helmet";
const OTHER_MNEMONIC: &str = "edge talent poet tortoise trumpet dose";
const USER0: &str = "9eatpGQdYNjTi5ZZLK7Bo7C3ms6oECPnxbQTRn6sDcBNLMYSCa8";
const USER1: &str = "9iBhwkjzUAVBkdxWvKmk7ab7nFgZRFbGpXA9gP6TAoakFnLNomk";
const RECIPIENT_TREE: &str = "0008cd0327e65711a59378c59359c3e1d0f7abe906479eccb76094e50fe79d743ccc15e6";
const HEIGHT: i32 = 471746;

const HEADER: &str = r#"{
    "extensionId": "d16f25b14457186df4c5f6355579cc769261ce1aebc8209949ca6feadbac5a3f",
    "difficulty": "626412390187008",
    "votes": "040000",
    "timestamp": 1618929697400,
    "size": 221,
    "stateRoot": "8ad868627ea4f7de6e2a2fe3f98fafe57f914e0f2ef3331c006def36c697f92713",
    "height": 471746,
    "nBits": 117586360,
    "version": 2,
    "id": "4caa17e62fe66ba7bd69597afdc996ae35b1ff12e0ba90c22ff288a4de10e91b",
    "adProofsRoot": "d882aaf42e0a95eb95fcce5c3705adf758e591532f733efe790ac3c404730c39",
    "transactionsRoot": "63eaa9aff76a1de3d71c81e4b2d92e8d97ae572a8e9ab9e66599ed0912dd2f8b",
    "extensionHash": "3f91f3c680beb26615fdec251aee3f81aaf5a02740806c167c0f3c929471df44",
    "powSolutions": {
      "pk": "02b3a06d6eaa8671431ba1db4dd427a77f75a5c2acbd71bfb725d38adc2b55f669",
      "w": "0279be667ef9dcbbac55a06295ce870b07029bfcdb2dce28d959f2815b16f81798",
      "n": "5939ecfee6b0d7f4",
      "d": "1234000000000000000000000000000000000000000000000000000000000000000000000000000000000000000000"
    },
    "adProofsId": "86eaa41f328bee598e33e52c9e515952ad3b7874102f762847f17318a776a7ae",
    "transactionsId": "ac80245714f25aa2fafe5494ad02a26d46e7955b8f5709f3659f1b9440797b3e",
    "parentId": "6481752bace5fa5acba5d5ef7124d48826664742d46c974c98a2d60ace229a34"
}"#;

fn hex(bytes: &[u8]) -> String {
    bytes.iter().map(|b| format!("{:02x}", b)).collect()
}

fn tree_of(address: &str) -> ErgoTree {
    AddressEncoder::new(NetworkPrefix::Mainnet)
        .parse_address_from_str(address)
        .unwrap()
        .script()
        .unwrap()
}

fn tree_hex(address: &str) -> String {
    hex(&tree_of(address).sigma_serialize_bytes().unwrap())
}

fn box_json(tree_hex: &str, value: u64, index: u16) -> String {
    format!(
        r#"{{"value": {}, "ergoTree": "{}", "assets": [], "creationHeight": 471000, "additionalRegisters": {{}}, "transactionId": "0e6acf3f18b95bdc5bb1b060baa1eafe53bd89fb08b0e86d6cc00fbdd9e43189", "index": {}}}"#,
        value, tree_hex, index
    )
}

fn candidate_json(tree_hex: &str, value: u64) -> String {
    format!(
        r#"{{"value": {}, "ergoTree": "{}", "assets": [], "creationHeight": 471746, "additionalRegisters": {{}}}}"#,
        value, tree_hex
    )
}

fn headers() -> String {
    format!("[{}]", std::iter::repeat(HEADER).take(10).collect::<Vec<_>>().join(","))
}

fn user_inputs() -> String {
    format!("[{}]", box_json(&tree_hex(USER0), 2_000_000_000, 0))
}

fn payment_outputs() -> String {
    format!("[{}]", candidate_json(RECIPIENT_TREE, 1_998_900_000))
}

fn build(inputs: &str, outputs: &str, ext: &str) -> Result<String, WalletError> {
    build_reduced_tx(inputs, "[]", outputs, 1_100_000, USER0, HEIGHT, &headers(), ext)
}

#[test]
fn eip3_addresses_of_a_known_mnemonic() {
    assert_eq!(mnemonic_to_address(MNEMONIC, "", 0, 1).unwrap(), USER0);
    assert_eq!(mnemonic_to_address(MNEMONIC, "", 1, 1).unwrap(), USER1);
    // A passphrase changes the seed.
    assert_ne!(mnemonic_to_address(MNEMONIC, "pass", 0, 1).unwrap(), USER0);
    // Testnet encoding of the same key.
    let testnet = mnemonic_to_address(MNEMONIC, "", 0, 0).unwrap();
    assert_ne!(testnet, USER0);
    assert!(testnet.starts_with('3'));
    let decoded = AddressEncoder::new(NetworkPrefix::Testnet).parse_address_from_str(&testnet).unwrap();
    let main: Address = AddressEncoder::new(NetworkPrefix::Mainnet).parse_address_from_str(USER0).unwrap();
    assert_eq!(decoded, main);
    assert!(parse_change_address(&testnet).is_ok());
    // Any non-zero flag means mainnet.
    assert_eq!(mnemonic_to_address(MNEMONIC, "", 0, 7).unwrap(), USER0);
    // A negative index does not parse as a path component and is dropped.
    let negative = mnemonic_to_address(MNEMONIC, "", -1, 1).unwrap();
    assert_ne!(negative, USER0);
}

#[test]
fn wallet_derives_at_least_one_key() {
    assert_eq!(derive_wallet_secrets(MNEMONIC, "", 0).unwrap().len(), 1);
    assert_eq!(derive_wallet_secrets(MNEMONIC, "", 1).unwrap().len(), 1);
    assert_eq!(derive_wallet_secrets(MNEMONIC, "", 4).unwrap().len(), 4);
}

#[test]
fn built_reduced_tx_reads_back() {
    let text = build(&user_inputs(), &payment_outputs(), "{}").unwrap();
    assert!(!text.contains('='));
    assert!(!text.contains('+'));
    assert!(!text.contains('/'));
    let preview = parse_reduced_tx(&text).unwrap();
    assert_eq!(preview.input_count(), 1);
    assert_eq!(preview.output_count(), 2);
    let id = preview.inputs[0].clone().unwrap();
    assert_eq!(id.len(), 64);
    let recipient = Address::recreate_from_ergo_tree(&ErgoTree::sigma_parse_bytes(&(0..RECIPIENT_TREE.len()).step_by(2).map(|i| u8::from_str_radix(&RECIPIENT_TREE[i..i + 2], 16).unwrap()).collect::<Vec<u8>>()).unwrap()).unwrap();
    assert_eq!(preview.outputs[0].address, AddressEncoder::new(NetworkPrefix::Mainnet).address_to_str(&recipient));
    assert_eq!(preview.outputs[0].value, 1_998_900_000);
    assert_eq!(preview.outputs[0].tokens.len(), 0);
    assert_eq!(preview.outputs[1].value, 1_100_000);
}

#[test]
fn built_reduced_tx_is_signed_by_its_owner() {
    let text = build(&user_inputs(), &payment_outputs(), "").unwrap();
    let signed = sign_reduced_tx(&text, MNEMONIC, "", 1).unwrap();
    assert!(signed.contains("\"inputs\""));
    assert!(signed.contains("spendingProof"));
    let e = sign_reduced_tx(&text, OTHER_MNEMONIC, "", 3).unwrap_err();
    assert!(matches!(e, WalletError::SignReduced(_)));
    assert!(e.message().starts_with("sign_reduced_transaction: "));
}

#[test]
fn reduced_tx_text_errors() {
    let e = parse_reduced_tx("!!!").unwrap_err();
    assert!(matches!(e, WalletError::Base64(_, None)));
    assert!(e.message().starts_with("base64 decode: "));
    let e = sign_reduced_tx("!!!", MNEMONIC, "", 1).unwrap_err();
    assert!(e.message().starts_with("base64 decode: "));
    assert!(e.message().ends_with(" (input len=3)"));
    let e = parse_reduced_tx("AAAA").unwrap_err();
    assert!(matches!(e, WalletError::ParseReduced(_)));
    assert!(e.message().starts_with("parse ReducedTransaction: "));
    let e = sign_reduced_tx("AAAA", MNEMONIC, "", 1).unwrap_err();
    assert!(matches!(e, WalletError::ParseReduced(_)));
}

#[test]
fn transaction_is_signed_from_json() {
    let signed = sign_transaction_json(
        MNEMONIC, "", &user_inputs(), "[]", &payment_outputs(), 1_100_000, USER0, HEIGHT, &headers(), "{}", 2,
    )
    .unwrap();
    assert!(signed.contains("\"outputs\""));
    let e = sign_transaction_json(
        OTHER_MNEMONIC, "", &user_inputs(), "[]", &payment_outputs(), 1_100_000, USER0, HEIGHT, &headers(), "{}", 2,
    )
    .unwrap_err();
    assert!(e.message().starts_with("sign_transaction: "));
    let e = sign_transaction_json(
        MNEMONIC, "", "{}", "[]", &payment_outputs(), 1_100_000, USER0, HEIGHT, &headers(), "{}", 2,
    )
    .unwrap_err();
    assert!(e.message().starts_with("parse input: "));
    let e = sign_transaction_json(
        MNEMONIC, "", &user_inputs(), "[]", "{}", 1_100_000, USER0, HEIGHT, &headers(), "{}", 2,
    )
    .unwrap_err();
    assert!(e.message().starts_with("parse output: "));
}

#[test]
fn request_errors_in_order() {
    let e = build("{}", &payment_outputs(), "{}").unwrap_err();
    assert!(e.message().starts_with("parse input boxes json: "));
    let e = build_reduced_tx(&user_inputs(), "[]", &payment_outputs(), 1_100_000, USER0, HEIGHT, "[]", "{}").unwrap_err();
    assert_eq!(e.message(), "Need 10 headers, got 0");
    let e = build_reduced_tx(&user_inputs(), "[]", &payment_outputs(), 1_100_000, "nope", HEIGHT, &headers(), "{}").unwrap_err();
    assert!(e.message().starts_with("change address: "));
    let e = build_reduced_tx(&user_inputs(), "[]", &payment_outputs(), 5, USER0, HEIGHT, &headers(), "{}").unwrap_err();
    assert!(e.message().starts_with("fee: "));
    let e = build("[]", &payment_outputs(), "{}").unwrap_err();
    assert_eq!(e.message(), "input boxes cannot be empty");
    let e = build(&user_inputs(), "[]", "{}").unwrap_err();
    assert!(e.message().starts_with("tx_builder.build: "));
}

#[test]
fn context_extension_entries() {
    let e = build(&user_inputs(), &payment_outputs(), r#"{"x": {}}"#).unwrap_err();
    assert_eq!(e.message(), "ext index parse: invalid digit found in string");
    let e = build(&user_inputs(), &payment_outputs(), r#"{"0": {"1": "zz"}}"#).unwrap_err();
    assert!(e.message().starts_with("parse context extension for input 0: "));
    // An entry for an input that does not exist is skipped.
    assert!(build(&user_inputs(), &payment_outputs(), r#"{"5": {"1": "zz"}}"#).is_ok());
    // A valid extension for the input is accepted.
    assert!(build(&user_inputs(), &payment_outputs(), r#"{"0": {"1": "0402"}}"#).is_ok());
}

#[test]
fn data_inputs_are_carried() {
    let data = format!("[{}]", box_json(RECIPIENT_TREE, 1_000_000, 1));
    let text = build_reduced_tx(&user_inputs(), &data, &payment_outputs(), 1_100_000, USER0, HEIGHT, &headers(), "{}").unwrap();
    assert!(parse_reduced_tx(&text).is_ok());
}

#[test]
fn pool_addresses_are_spent_like_any_other() {
    // An input at a pool address is built like any other input (the outputs need pay no
    // one); only reducing its script in this bare context fails.
    let pool = box_json(&tree_hex(POOL_ADDRESS), 1_000_000, 3);
    let inputs = format!("[{},{}]", box_json(&tree_hex(USER0), 2_000_000_000, 0), pool);
    let outputs = format!("[{},{}]", candidate_json(RECIPIENT_TREE, 1_998_900_000), candidate_json(&tree_hex(POOL_ADDRESS), 1_000_000));
    let r = build(&inputs, &outputs, "{}");
    assert!(matches!(r, Err(WalletError::Reduce(_))));
}

#[test]
fn value_sums_past_u64_are_refused() {
    let big = format!(
        "[{},{},{}]",
        box_json(&tree_hex(USER0), 9_223_372_036_854_775_807, 0),
        box_json(&tree_hex(USER0), 9_223_372_036_854_775_807, 1),
        box_json(&tree_hex(USER0), 9_223_372_036_854_775_807, 2)
    );
    let e = build(&big, &payment_outputs(), "{}").unwrap_err();
    assert!(matches!(e, WalletError::ValueOverflow));
}

#[test]
fn request_list_errors() {
    let e = build_reduced_tx(&user_inputs(), "{", &payment_outputs(), 1_100_000, USER0, HEIGHT, &headers(), "{}").unwrap_err();
    assert!(matches!(e, WalletError::DataInputList(_)));
    assert!(e.message().starts_with("parse data input boxes json: "));
    let e = build_reduced_tx(&user_inputs(), "[]", &payment_outputs(), 1_100_000, USER0, HEIGHT, &headers(), "[1]").unwrap_err();
    assert!(matches!(e, WalletError::ContextExtensions(_)));
    let e = build_reduced_tx(&user_inputs(), "[]", "7", 1_100_000, USER0, HEIGHT, &headers(), "{}").unwrap_err();
    assert!(e.message().starts_with("parse output candidates: "));
    let e = build_reduced_tx(&user_inputs(), "[]", &payment_outputs(), 1_100_000, USER0, HEIGHT, "{}", "{}").unwrap_err();
    assert!(e.message().starts_with("parse headers: "));
    let e = build_reduced_tx(&user_inputs(), "[]", &payment_outputs(), 1_100_000, USER0, HEIGHT, "[1,2,3,4,5,6,7,8,9,10]", "{}").unwrap_err();
    assert!(e.message().starts_with("parse header: "));
    // The data inputs are read before the outputs.
    let e = build_reduced_tx(&user_inputs(), "x", "7", 1_100_000, USER0, HEIGHT, &headers(), "{}").unwrap_err();
    assert!(matches!(e, WalletError::DataInputList(_)));
}

#[test]
fn wallet_keys_follow_the_eip3_indices() {
    let keys = derive_wallet_secrets(MNEMONIC, "", 2).unwrap();
    let encoder = AddressEncoder::new(NetworkPrefix::Mainnet);
    assert_eq!(encoder.address_to_str(&keys[0].get_address_from_public_image()), USER0);
    assert_eq!(encoder.address_to_str(&keys[1].get_address_from_public_image()), USER1);
}

#[test]
fn headers_are_counted_after_empty_lists() {
    let e = build_reduced_tx("[]", "", "[]", 1_000_000, "x", 1, "[]", "").unwrap_err();
    assert_eq!(e.message(), "Need 10 headers, got 0");
}

#[test]
fn extensions_follow_the_text_order() {
    let ext = r#"{"0": {"1": "0402", "2": "0404"}}"#;
    let a = build(&user_inputs(), &payment_outputs(), ext).unwrap();
    let b = build(&user_inputs(), &payment_outputs(), ext).unwrap();
    assert_eq!(a, b);
    let swapped = r#"{"0": {"2": "0404", "1": "0402"}}"#;
    assert!(build(&user_inputs(), &payment_outputs(), swapped).is_ok());
}
