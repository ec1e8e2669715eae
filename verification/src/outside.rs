//! The ergo-lib, serde_json, indexmap and base64 items that the wallet logic calls.
//!
//! Every item here is trusted: its contract is taken as given and its body is not
//! checked. Each doc comment names the function that is called and says what the
//! contract claims of it.
use vstd::prelude::*;
use vstd::string::*;

use crate::text::base58_text;

use base64::Engine;
use ergo_lib::chain::ergo_state_context::ErgoStateContext;
use ergo_lib::chain::parameters::Parameters;
use ergo_lib::chain::transaction::reduced::{reduce_tx, ReducedTransaction};
use ergo_lib::chain::transaction::unsigned::UnsignedTransaction;
use ergo_lib::chain::transaction::{DataInput, Transaction};
use ergo_lib::ergo_chain_types::{Header, PreHeader};
use ergo_lib::ergotree_interpreter::sigma_protocol::prover::ContextExtension;
use ergo_lib::ergotree_ir::chain::address::{Address, AddressEncoder, NetworkPrefix};
use ergo_lib::ergotree_ir::chain::ergo_box::box_value::BoxValue;
use ergo_lib::ergotree_ir::chain::ergo_box::{BoxId, ErgoBox, ErgoBoxCandidate};
use ergo_lib::ergotree_ir::ergo_tree::ErgoTree;
use ergo_lib::ergotree_ir::serialization::SigmaSerializable;
use ergo_lib::wallet::box_selector::BoxSelection;
use ergo_lib::wallet::derivation_path::DerivationPath;
use ergo_lib::wallet::ext_secret_key::ExtSecretKey;
use ergo_lib::wallet::mnemonic::Mnemonic;
use ergo_lib::wallet::secret_key::SecretKey;
use ergo_lib::wallet::signing::TransactionContext;
use ergo_lib::wallet::tx_builder::TxBuilder;
use ergo_lib::wallet::Wallet;

verus! {

// ---------------------------------------------------------------------------
// Outside types that the logic carries through.
// ---------------------------------------------------------------------------

#[verifier::external_type_specification]
#[verifier::external_body]
pub struct ExErgoTree(ErgoTree);

#[verifier::external_type_specification]
#[verifier::external_body]
pub struct ExErgoBox(ErgoBox);

#[verifier::external_type_specification]
#[verifier::external_body]
pub struct ExErgoBoxCandidate(ErgoBoxCandidate);

#[verifier::external_type_specification]
#[verifier::external_body]
pub struct ExBoxId(BoxId);

#[verifier::external_type_specification]
#[verifier::external_body]
pub struct ExBoxValue(BoxValue);

#[verifier::external_type_specification]
#[verifier::external_body]
pub struct ExHeader(Header);

#[verifier::external_type_specification]
#[verifier::external_body]
pub struct ExErgoStateContext(ErgoStateContext);

#[verifier::external_type_specification]
#[verifier::external_body]
pub struct ExPreHeader(PreHeader);

#[verifier::external_type_specification]
#[verifier::external_body]
pub struct ExAddress(Address);

#[verifier::external_type_specification]
#[verifier::external_body]
pub struct ExContextExtension(ContextExtension);

#[verifier::external_type_specification]
#[verifier::external_body]
pub struct ExUnsignedTransaction(UnsignedTransaction);

#[verifier::external_type_specification]
#[verifier::external_body]
pub struct ExReducedTransaction(ReducedTransaction);

#[verifier::external_type_specification]
#[verifier::external_body]
pub struct ExTransaction(Transaction);

#[verifier::external_type_specification]
#[verifier::external_body]
pub struct ExExtSecretKey(ExtSecretKey);

#[verifier::external_type_specification]
#[verifier::external_body]
pub struct ExSecretKey(SecretKey);

#[verifier::external_type_specification]
#[verifier::external_body]
pub struct ExDerivationPath(DerivationPath);

#[verifier::external_type_specification]
#[verifier::external_body]
pub struct ExWallet(Wallet);

#[verifier::external_type_specification]
#[verifier::external_body]
pub struct ExJsonValue(serde_json::Value);

// ---------------------------------------------------------------------------
// Names for results that are functions of their arguments alone.
// ---------------------------------------------------------------------------

/// The 64-byte BIP-39 seed of a mnemonic phrase and passphrase.
pub uninterp spec fn mnemonic_seed_bytes(phrase: Seq<char>, pass: Seq<char>) -> Seq<u8>;

/// The elements of `text` read as a JSON array, or `None` when it is not one.
pub uninterp spec fn json_array_items(text: Seq<char>) -> Option<Seq<serde_json::Value>>;

/// The number of elements of `text` read as a JSON array, or `None` when it is not one.
pub open spec fn json_array_length(text: Seq<char>) -> Option<nat> {
    match json_array_items(text) {
        Some(items) => Some(items.len()),
        None => None,
    }
}

/// A JSON value read as an `ErgoBox`, or `None` when it is not one.
pub uninterp spec fn json_value_box(v: serde_json::Value) -> Option<ErgoBox>;

/// A JSON value read as an `ErgoBoxCandidate`, or `None` when it is not one.
pub uninterp spec fn json_value_candidate(v: serde_json::Value) -> Option<ErgoBoxCandidate>;

/// A JSON value read as a block `Header`, or `None` when it is not one.
pub uninterp spec fn json_value_header(v: serde_json::Value) -> Option<Header>;

/// `text` read as a JSON object of JSON objects of strings, each object as its entries in
/// the order of the text (a key given twice keeps its first place and its last value), or
/// `None` when it is not one.
pub uninterp spec fn json_extension_entries(text: Seq<char>) -> Option<Seq<(Seq<char>, Seq<(Seq<char>, Seq<char>)>)>>;

/// `text` decoded as an Ergo address of the given network, or `None` when it is not one.
pub uninterp spec fn decoded_address(text: Seq<char>, mainnet: bool) -> Option<Address>;

/// Whether `text` decodes as an Ergo address of the given network.
pub open spec fn address_decodes(text: Seq<char>, mainnet: bool) -> bool {
    decoded_address(text, mainnet) is Some
}

/// The Base58 text of an address with the given network prefix.
pub uninterp spec fn address_text(address: Address, mainnet: bool) -> Seq<char>;

/// The address whose script is the given tree, or `None` when the tree makes none.
pub uninterp spec fn tree_address(tree: ErgoTree) -> Option<Address>;


/// `bytes` parsed as a serialized reduced transaction, or `None` when they are not one.
pub uninterp spec fn reduced_tx_of(bytes: Seq<u8>) -> Option<ReducedTransaction>;

/// Whether `bytes` parse as a serialized reduced transaction.
pub open spec fn reduced_tx_decodes(bytes: Seq<u8>) -> bool {
    reduced_tx_of(bytes) is Some
}

/// The ids of the inputs of a reduced transaction, in order.
pub uninterp spec fn reduced_input_ids_of(tx: ReducedTransaction) -> Seq<BoxId>;

/// The output candidates of a reduced transaction, in order.
pub uninterp spec fn reduced_outputs_of(tx: ReducedTransaction) -> Seq<ErgoBoxCandidate>;

/// The master extended key of a 64-byte seed, or `None` when the seed gives none.
pub uninterp spec fn master_key_of(seed: Seq<u8>) -> Option<ExtSecretKey>;

/// A derivation path read from its text, or `None` when the text is not one.
pub uninterp spec fn derivation_path_of(text: Seq<char>) -> Option<DerivationPath>;

/// The extended key derived from `key` along `path`, or `None` when it cannot be derived.
pub uninterp spec fn child_key_of(key: ExtSecretKey, path: DerivationPath) -> Option<ExtSecretKey>;

/// The secret key held by an extended key.
pub uninterp spec fn secret_key_in(key: ExtSecretKey) -> SecretKey;

/// The address of the public image of a secret key.
pub uninterp spec fn secret_address(key: SecretKey) -> Address;


/// The value of a box in nanoERG.
pub uninterp spec fn box_value_of(b: ErgoBox) -> u64;

/// The id of a box.
pub uninterp spec fn box_id_of(b: ErgoBox) -> BoxId;

/// The script guarding an output candidate.
pub uninterp spec fn candidate_tree_of(c: ErgoBoxCandidate) -> ErgoTree;

/// The value of an output candidate in nanoERG.
pub uninterp spec fn candidate_value_of(c: ErgoBoxCandidate) -> u64;

/// The tokens of an output candidate in order: each id as JSON renders it (when that is a
/// string) and the amount.
pub uninterp spec fn candidate_tokens_of(c: ErgoBoxCandidate) -> Seq<(Option<Seq<char>>, u64)>;

/// A box id as JSON renders it, when that is a string.
pub uninterp spec fn box_id_json_text(id: BoxId) -> Option<Seq<char>>;

/// The box value of a raw nanoERG amount (meaningful within the bounds).
pub uninterp spec fn box_value_named(nano: u64) -> BoxValue;

/// The nanoERG amount of a box value.
pub uninterp spec fn box_value_amount(v: BoxValue) -> u64;

/// The sum of the values of boxes, in nanoERG.
pub open spec fn box_values_total(boxes: Seq<ErgoBox>) -> int
    decreases boxes.len(),
{
    if boxes.len() == 0 { 0 } else { box_values_total(boxes.drop_last()) + box_value_of(boxes.last()) }
}

/// The sum of the values of output candidates, in nanoERG.
pub open spec fn candidate_values_total(candidates: Seq<ErgoBoxCandidate>) -> int
    decreases candidates.len(),
{
    if candidates.len() == 0 {
        0
    } else {
        candidate_values_total(candidates.drop_last()) + candidate_value_of(candidates.last())
    }
}

/// The wallet holding the given secret keys.
pub uninterp spec fn wallet_from(secrets: Seq<SecretKey>) -> Wallet;

/// The unsigned transaction that a spending context spends.
pub uninterp spec fn context_tx(ctx: SpendingContext) -> UnsignedTransaction;

/// The ids of the boxes an unsigned transaction spends, in order.
pub uninterp spec fn unsigned_input_ids(tx: UnsignedTransaction) -> Seq<BoxId>;

/// The output candidates of an unsigned transaction, in order.
pub uninterp spec fn unsigned_outputs(tx: UnsignedTransaction) -> Seq<ErgoBoxCandidate>;

/// The ids of the boxes a signed transaction spends, in order.
pub uninterp spec fn signed_input_ids(tx: Transaction) -> Seq<BoxId>;

/// The output candidates of a signed transaction, in order.
pub uninterp spec fn signed_outputs(tx: Transaction) -> Seq<ErgoBoxCandidate>;

/// Extension entries taken by their texts.
pub open spec fn entry_texts(v: Seq<(String, Vec<(String, String)>)>) -> Seq<(Seq<char>, Seq<(Seq<char>, Seq<char>)>)> {
    v.map_values(|e: (String, Vec<(String, String)>)| (e.0@, pair_texts(e.1@)))
}

/// The pre-header made from a header.
pub uninterp spec fn pre_header_of(header: Header) -> PreHeader;

/// The state context of a pre-header and ten headers, under the default parameters.
pub uninterp spec fn state_context_from(pre_header: PreHeader, headers: Seq<Header>) -> ErgoStateContext;

/// The context extension of (key, hex value) pairs in the given order, or `None` when a
/// key or value does not read.
pub uninterp spec fn context_extension_from(pairs: Seq<(Seq<char>, Seq<char>)>) -> Option<ContextExtension>;

/// The selection that spends all of the given boxes.
pub uninterp spec fn selection_of(boxes: Seq<ErgoBox>) -> SpendAll;

/// A fresh transaction builder over a selection, outputs, height, fee and change address.
pub uninterp spec fn tx_builder_of(
    selection: SpendAll,
    outputs: Seq<ErgoBoxCandidate>,
    height: u32,
    fee: BoxValue,
    change: Address,
) -> UnsignedTxBuilder;

/// A builder with its data inputs set to the given box ids.
pub uninterp spec fn builder_with_data_inputs(builder: UnsignedTxBuilder, ids: Seq<BoxId>) -> UnsignedTxBuilder;

/// A builder with the context extension of one input set.
pub uninterp spec fn builder_with_extension(builder: UnsignedTxBuilder, id: BoxId, ext: ContextExtension) -> UnsignedTxBuilder;

/// The unsigned transaction a builder builds, or `None` when it refuses.
pub uninterp spec fn built_tx(builder: UnsignedTxBuilder) -> Option<UnsignedTransaction>;

/// The spending context of an unsigned transaction with its input and data boxes, or
/// `None` when the boxes do not match it.
pub uninterp spec fn spending_context_of(tx: UnsignedTransaction, inputs: Seq<ErgoBox>, data: Seq<ErgoBox>) -> Option<SpendingContext>;

/// The reduction of a spending context under a state context, or `None` when it fails.
pub uninterp spec fn reduced_of(ctx: SpendingContext, state: ErgoStateContext) -> Option<ReducedTransaction>;

/// The serialized bytes of a reduced transaction, or `None` when serializing fails.
pub uninterp spec fn reduced_bytes_of(tx: ReducedTransaction) -> Option<Seq<u8>>;

/// A signed transaction rendered as JSON text, or `None` when rendering fails.
pub uninterp spec fn transaction_json_text(tx: Transaction) -> Option<Seq<char>>;

/// (key, value) pairs taken by their texts.
pub open spec fn pair_texts(pairs: Seq<(String, String)>) -> Seq<(Seq<char>, Seq<char>)> {
    pairs.map_values(|p: (String, String)| (p.0@, p.1@))
}

/// An optional string taken by its view.
pub open spec fn opt_text(s: Option<String>) -> Option<Seq<char>> {
    match s {
        Some(t) => Some(t@),
        None => None,
    }
}

/// A token entry taken by its view.
pub open spec fn token_view(t: (Option<String>, u64)) -> (Option<Seq<char>>, u64) {
    (opt_text(t.0), t.1)
}


/// Base64 decoding, URL-safe alphabet, padding forbidden.
pub uninterp spec fn base64_url_nopad_decode(text: Seq<char>) -> Option<Seq<u8>>;

/// Base64 decoding, URL-safe alphabet, padding required.
pub uninterp spec fn base64_url_pad_decode(text: Seq<char>) -> Option<Seq<u8>>;

/// Base64 decoding, standard alphabet, padding required.
pub uninterp spec fn base64_std_pad_decode(text: Seq<char>) -> Option<Seq<u8>>;

/// Base64 decoding, standard alphabet, padding forbidden.
pub uninterp spec fn base64_std_nopad_decode(text: Seq<char>) -> Option<Seq<u8>>;

/// Base64 encoding, URL-safe alphabet, without padding.
pub uninterp spec fn base64_url_nopad_encode(bytes: Seq<u8>) -> Seq<char>;

// ---------------------------------------------------------------------------
// Keys and addresses.
// ---------------------------------------------------------------------------

/// `Mnemonic::to_seed`: PBKDF2-HMAC-SHA512 over the NFKD-normalised phrase with salt
/// "mnemonic" + passphrase. The seed is named; its length is 64 bytes.
#[verifier::external_body]
pub(crate) fn mnemonic_seed(phrase: &str, pass: &str) -> (seed: Vec<u8>)
    ensures
        seed@ == mnemonic_seed_bytes(phrase@, pass@),
        seed@.len() == 64,
{
    Mnemonic::to_seed(phrase, pass).to_vec()
}

/// `ExtSecretKey::derive_master` on a 64-byte seed (HMAC-SHA512, a function of the seed);
/// the key is named. The error is the outside error's text.
#[verifier::external_body]
pub(crate) fn derive_master_key(seed: &Vec<u8>) -> (r: Result<ExtSecretKey, String>)
    requires
        seed@.len() == 64,
    ensures
        r is Ok <==> master_key_of(seed@) is Some,
        r matches Ok(k) ==> master_key_of(seed@) == Some(k),
{
    let mut arr = [0u8; 64];
    arr.copy_from_slice(seed.as_slice());
    ExtSecretKey::derive_master(arr).map_err(|e| e.to_string())
}

/// `str::parse::<DerivationPath>`. The parser drops whitespace, splits on `/` and only
/// fails when the first part is neither `m` nor `M`; so a text that starts with `m/`
/// always parses. The parsed path itself is not stated.
#[verifier::external_body]
pub(crate) fn parse_derivation_path(text: &str) -> (r: Result<DerivationPath, String>)
    ensures
        (text@.len() >= 2 && text@[0] == 'm' && text@[1] == '/') ==> r is Ok,
        r is Ok <==> derivation_path_of(text@) is Some,
        r matches Ok(p) ==> derivation_path_of(text@) == Some(p),
{
    text.parse::<DerivationPath>().map_err(|e| e.to_string())
}

/// `ExtSecretKey::derive` along a derivation path, from a master key; the key is named. The
/// error is the outside error's text. (`derive` slices the path by the key's own depth
/// before comparing, so it is called on master keys only, whose depth is zero.)
#[verifier::external_body]
pub(crate) fn derive_child_key(master: &ExtSecretKey, path: DerivationPath) -> (r: Result<ExtSecretKey, String>)
    requires
        exists|seed: Seq<u8>| #[trigger] master_key_of(seed) == Some(*master),
    ensures
        r is Ok <==> child_key_of(*master, path) is Some,
        r matches Ok(k) ==> child_key_of(*master, path) == Some(k),
{
    master.derive(path).map_err(|e| e.to_string())
}

/// `ExtSecretKey::secret_key`; the key is named.
#[verifier::external_body]
pub(crate) fn secret_key_of(key: &ExtSecretKey) -> (r: SecretKey)
    ensures
        r == secret_key_in(*key),
{
    key.secret_key()
}

/// `SecretKey::get_address_from_public_image`; the address is named.
#[verifier::external_body]
pub(crate) fn address_of_secret(key: &SecretKey) -> (r: Address)
    ensures
        r == secret_address(*key),
{
    key.get_address_from_public_image()
}

/// `AddressEncoder::address_to_str` for the mainnet or testnet prefix: `bs58::encode`
/// (Bitcoin alphabet) of the head byte, the content bytes and a 4-byte checksum, so the
/// text is non-empty Base58. Which text it is, is not stated: `Address` is opaque here,
/// and the text does not decode back for every address (a pay-to-script address with no
/// script bytes is too short to parse).
#[verifier::external_body]
pub(crate) fn encode_address(address: &Address, mainnet: bool) -> (r: String)
    ensures
        r@ == address_text(*address, mainnet),
        base58_text(r@),
{
    let prefix = if mainnet { NetworkPrefix::Mainnet } else { NetworkPrefix::Testnet };
    AddressEncoder::new(prefix).address_to_str(address)
}

/// `AddressEncoder::parse_address_from_str` for the mainnet or testnet prefix; the address
/// is named. The error is the outside error's text.
#[verifier::external_body]
pub(crate) fn decode_address(text: &str, mainnet: bool) -> (r: Result<Address, String>)
    ensures
        r is Ok <==> decoded_address(text@, mainnet) is Some,
        r matches Ok(a) ==> decoded_address(text@, mainnet) == Some(a),
{
    let prefix = if mainnet { NetworkPrefix::Mainnet } else { NetworkPrefix::Testnet };
    AddressEncoder::new(prefix).parse_address_from_str(text).map_err(|e| e.to_string())
}

/// `Address::recreate_from_ergo_tree`, with its error dropped; the result is named.
#[verifier::external_body]
pub(crate) fn address_of_tree(tree: &ErgoTree) -> (r: Option<Address>)
    ensures
        r == tree_address(*tree),
{
    Address::recreate_from_ergo_tree(tree).ok()
}

/// The `value` field of an `ErgoBox`, in nanoERG (`BoxValue::as_u64`); the value is named.
#[verifier::external_body]
pub(crate) fn box_value(b: &ErgoBox) -> (r: u64)
    ensures
        r == box_value_of(*b),
{
    *b.value.as_u64()
}

/// `ErgoBox::box_id`; the id is named.
#[verifier::external_body]
pub(crate) fn box_id(b: &ErgoBox) -> (r: BoxId)
    ensures
        r == box_id_of(*b),
{
    b.box_id()
}

/// The `ergo_tree` field of an `ErgoBoxCandidate` (a clone); the tree is named.
#[verifier::external_body]
pub(crate) fn candidate_tree(c: &ErgoBoxCandidate) -> (r: ErgoTree)
    ensures
        r == candidate_tree_of(*c),
{
    c.ergo_tree.clone()
}

/// The `value` field of an `ErgoBoxCandidate`, in nanoERG (`BoxValue::as_u64`); the value
/// is named.
#[verifier::external_body]
pub(crate) fn candidate_value(c: &ErgoBoxCandidate) -> (r: u64)
    ensures
        r == candidate_value_of(*c),
{
    *c.value.as_u64()
}

/// The tokens of an `ErgoBoxCandidate` in order (none when its `tokens` field is `None`),
/// each as its id rendered by `serde_json::to_value` (a string; `None` where that is not a
/// string) and its amount (`TokenAmount::as_u64`).
#[verifier::external_body]
pub(crate) fn candidate_tokens(c: &ErgoBoxCandidate) -> (r: Vec<(Option<String>, u64)>)
    ensures
        r@.map_values(|t: (Option<String>, u64)| token_view(t)) == candidate_tokens_of(*c),
{
    c.tokens
        .iter()
        .flat_map(|tokens| tokens.iter())
        .map(|t| {
            let id = serde_json::to_value(&t.token_id).ok().and_then(|v| v.as_str().map(String::from));
            (id, *t.amount.as_u64())
        })
        .collect()
}

/// A box id as `serde_json::to_value` renders it (a string; `None` where that is not a
/// string).
#[verifier::external_body]
pub(crate) fn box_id_text(id: &BoxId) -> (r: Option<String>)
    ensures
        opt_text(r) == box_id_json_text(*id),
{
    serde_json::to_value(id).ok().and_then(|v| v.as_str().map(String::from))
}

/// `BoxValue::try_from(u64)`: succeeds exactly on `BoxValue::MIN_RAW..=BoxValue::MAX_RAW`,
/// that is 360 * 30 through `i64::MAX`. The error is the outside error's text.
#[verifier::external_body]
pub(crate) fn box_value_from(nano: u64) -> (r: Result<BoxValue, String>)
    ensures
        r is Ok <==> (10800 <= nano && nano <= 0x7fff_ffff_ffff_ffff),
        r matches Ok(v) ==> v == box_value_named(nano) && box_value_amount(v) == nano,
{
    BoxValue::try_from(nano).map_err(|e| e.to_string())
}

// ---------------------------------------------------------------------------
// JSON.
// ---------------------------------------------------------------------------

/// `serde_json::from_str::<Vec<serde_json::Value>>`: succeeds exactly when the text is a
/// JSON array, and then gives one value per element. The error is the outside error's text.
#[verifier::external_body]
pub(crate) fn json_array(text: &str) -> (r: Result<Vec<serde_json::Value>, String>)
    ensures
        r is Ok <==> json_array_items(text@) is Some,
        r matches Ok(v) ==> json_array_items(text@) == Some(v@),
{
    serde_json::from_str::<Vec<serde_json::Value>>(text).map_err(|e| e.to_string())
}

/// `serde_json::from_value::<ErgoBox>`; the box is named. The error is the outside error's
/// text.
#[verifier::external_body]
pub(crate) fn ergo_box_from_json(v: &serde_json::Value) -> (r: Result<ErgoBox, String>)
    ensures
        r is Ok <==> json_value_box(*v) is Some,
        r matches Ok(b) ==> json_value_box(*v) == Some(b),
{
    serde_json::from_value::<ErgoBox>(v.clone()).map_err(|e| e.to_string())
}

/// `serde_json::from_value::<ErgoBoxCandidate>`; the candidate is named. The error is the
/// outside error's text.
#[verifier::external_body]
pub(crate) fn candidate_from_json(v: &serde_json::Value) -> (r: Result<ErgoBoxCandidate, String>)
    ensures
        r is Ok <==> json_value_candidate(*v) is Some,
        r matches Ok(c) ==> json_value_candidate(*v) == Some(c),
{
    serde_json::from_value::<ErgoBoxCandidate>(v.clone()).map_err(|e| e.to_string())
}

/// `serde_json::from_value::<Header>`; the header is named. The error is the outside
/// error's text.
#[verifier::external_body]
pub(crate) fn header_from_json(v: &serde_json::Value) -> (r: Result<Header, String>)
    ensures
        r is Ok <==> json_value_header(*v) is Some,
        r matches Ok(h) ==> json_value_header(*v) == Some(h),
{
    serde_json::from_value::<Header>(v.clone()).map_err(|e| e.to_string())
}

/// `serde_json::from_str::<IndexMap<String, IndexMap<String, String>>>` (indexmap's serde
/// support keeps the text's order), each map handed out as its entries in order; the
/// entries are named. The error is the outside error's text.
#[verifier::external_body]
pub(crate) fn json_nested_maps(text: &str) -> (r: Result<Vec<(String, Vec<(String, String)>)>, String>)
    ensures
        r is Ok <==> json_extension_entries(text@) is Some,
        r matches Ok(v) ==> json_extension_entries(text@) == Some(entry_texts(v@)),
{
    let parsed: indexmap::IndexMap<String, indexmap::IndexMap<String, String>> =
        serde_json::from_str(text).map_err(|e| e.to_string())?;
    Ok(parsed.into_iter().map(|(k, m)| (k, m.into_iter().collect())).collect())
}

/// `serde_json::to_string` of a signed transaction; the text is named. The error is the
/// outside error's text.
#[verifier::external_body]
pub(crate) fn transaction_json(tx: &Transaction) -> (r: Result<String, String>)
    ensures
        r is Ok <==> transaction_json_text(*tx) is Some,
        r matches Ok(s) ==> transaction_json_text(*tx) == Some(s@),
{
    serde_json::to_string(tx).map_err(|e| e.to_string())
}

// ---------------------------------------------------------------------------
// Transactions.
// ---------------------------------------------------------------------------

/// `PreHeader::from` a header; the pre-header is named.
#[verifier::external_body]
pub(crate) fn pre_header_from(header: &Header) -> (r: PreHeader)
    ensures
        r == pre_header_of(*header),
{
    PreHeader::from(header.clone())
}

/// `ErgoStateContext::new` with a pre-header and ten headers (`Vec::try_into` the array,
/// which succeeds exactly on ten), under `Parameters::default()`; the context is named.
#[verifier::external_body]
pub(crate) fn state_context_of(pre_header: PreHeader, headers: Vec<Header>) -> (r: Option<ErgoStateContext>)
    ensures
        r is Some <==> headers@.len() == 10,
        r matches Some(s) ==> s == state_context_from(pre_header, headers@),
{
    let arr: [Header; 10] = headers.try_into().ok()?;
    Some(ErgoStateContext::new(pre_header, arr, Parameters::default()))
}

/// `ContextExtension::try_from(IndexMap<String, String>)` over the pairs in the given
/// order. The error is the outside error's text; when it succeeds is not stated.
#[verifier::external_body]
pub(crate) fn context_extension_of(pairs: &Vec<(String, String)>) -> (r: Result<ContextExtension, String>)
    ensures
        r is Ok <==> context_extension_from(pair_texts(pairs@)) is Some,
        r matches Ok(x) ==> context_extension_from(pair_texts(pairs@)) == Some(x),
{
    let map: indexmap::IndexMap<String, String, std::collections::hash_map::RandomState> =
        pairs.iter().cloned().collect();
    ContextExtension::try_from(map).map_err(|e| e.to_string())
}

/// A `BoxSelection` that spends all of the given boxes and returns no change. It is made
/// only by `spend_all`, so the values of its boxes sum to at most `u64::MAX`.
#[verifier::external_body]
pub struct SpendAll {
    inner: BoxSelection<ErgoBox>,
}

/// `Vec<ErgoBox>::try_into` the selection's bounded list (of a copy of the boxes): it
/// holds 1 to `i16::MAX` boxes, so this succeeds exactly on those lengths.
#[verifier::external_body]
pub(crate) fn spend_all(boxes: &Vec<ErgoBox>) -> (r: Option<SpendAll>)
    requires
        box_values_total(boxes@) <= u64::MAX,
    ensures
        r is Some <==> (1 <= boxes@.len() && boxes@.len() <= 32767),
        r matches Some(s) ==> s == selection_of(boxes@),
{
    match boxes.clone().try_into() {
        Ok(selected) => Some(SpendAll { inner: BoxSelection { boxes: selected, change_boxes: vec![] } }),
        Err(_) => None,
    }
}

/// A transaction builder (`TxBuilder<ErgoBox>`). It is made only by `tx_builder_new`, so
/// the values of its inputs sum to at most `u64::MAX` (its selection comes from
/// `spend_all`), and so do the values of its outputs with the miner fee; the setters
/// change neither. `TxBuilder::build` sums both without overflow checks.
#[verifier::external_body]
pub struct UnsignedTxBuilder {
    inner: TxBuilder<ErgoBox>,
}

/// `TxBuilder::new(selection, outputs, height, fee, change_address)`.
#[verifier::external_body]
pub(crate) fn tx_builder_new(
    selection: SpendAll,
    outputs: Vec<ErgoBoxCandidate>,
    height: u32,
    fee: BoxValue,
    change: Address,
) -> (r: UnsignedTxBuilder)
    requires
        candidate_values_total(outputs@) + box_value_amount(fee) <= u64::MAX,
    ensures
        r == tx_builder_of(selection, outputs@, height, fee, change),
{
    UnsignedTxBuilder { inner: TxBuilder::new(selection.inner, outputs, height, fee, change) }
}

/// `TxBuilder::set_data_inputs`, each box id made a `DataInput`.
#[verifier::external_body]
pub(crate) fn tx_builder_set_data_inputs(builder: &mut UnsignedTxBuilder, ids: Vec<BoxId>)
    ensures
        *final(builder) == builder_with_data_inputs(*old(builder), ids@),
{
    builder.inner.set_data_inputs(ids.into_iter().map(DataInput::from).collect());
}

/// `TxBuilder::set_context_extension`.
#[verifier::external_body]
pub(crate) fn tx_builder_set_context_extension(builder: &mut UnsignedTxBuilder, id: BoxId, ext: ContextExtension)
    ensures
        *final(builder) == builder_with_extension(*old(builder), id, ext),
{
    builder.inner.set_context_extension(id, ext);
}

/// `TxBuilder::build`. The error is the outside error's text.
#[verifier::external_body]
pub(crate) fn tx_builder_build(builder: UnsignedTxBuilder) -> (r: Result<UnsignedTransaction, String>)
    ensures
        r is Ok <==> built_tx(builder) is Some,
        r matches Ok(u) ==> built_tx(builder) == Some(u),
{
    builder.inner.build().map_err(|e| e.to_string())
}

/// A `TransactionContext<UnsignedTransaction>`.
#[verifier::external_body]
pub struct SpendingContext {
    inner: TransactionContext<UnsignedTransaction>,
}

/// `TransactionContext::new(tx, boxes_to_spend, data_boxes)`. The error is the outside
/// error's text.
#[verifier::external_body]
pub(crate) fn spending_context(
    tx: UnsignedTransaction,
    inputs: Vec<ErgoBox>,
    data: Vec<ErgoBox>,
) -> (r: Result<SpendingContext, String>)
    ensures
        r is Ok <==> spending_context_of(tx, inputs@, data@) is Some,
        r matches Ok(c) ==> spending_context_of(tx, inputs@, data@) == Some(c) && context_tx(c) == tx,
{
    TransactionContext::new(tx, inputs, data)
        .map(|inner| SpendingContext { inner })
        .map_err(|e| e.to_string())
}

/// `reduce_tx`. The error is the outside error's text.
#[verifier::external_body]
pub(crate) fn reduce_transaction(ctx: SpendingContext, state: &ErgoStateContext) -> (r: Result<ReducedTransaction, String>)
    ensures
        r is Ok <==> reduced_of(ctx, *state) is Some,
        r matches Ok(t) ==> reduced_of(ctx, *state) == Some(t),
{
    reduce_tx(ctx.inner, state).map_err(|e| e.to_string())
}

/// `ReducedTransaction::sigma_serialize_bytes`. The bytes parse back as a reduced
/// transaction (the crate's serialization round trip). The error is the outside error's
/// text.
#[verifier::external_body]
pub(crate) fn reduced_to_bytes(tx: &ReducedTransaction) -> (r: Result<Vec<u8>, String>)
    ensures
        r is Ok <==> reduced_bytes_of(*tx) is Some,
        r matches Ok(b) ==> reduced_bytes_of(*tx) == Some(b@) && reduced_tx_decodes(b@),
{
    tx.sigma_serialize_bytes().map_err(|e| e.to_string())
}

/// `ReducedTransaction::sigma_parse_bytes`: succeeds exactly when the named predicate
/// holds. The error is the outside error's text.
#[verifier::external_body]
pub(crate) fn reduced_from_bytes(bytes: &Vec<u8>) -> (r: Result<ReducedTransaction, String>)
    ensures
        r is Ok <==> reduced_tx_of(bytes@) is Some,
        r matches Ok(t) ==> reduced_tx_of(bytes@) == Some(t),
{
    ReducedTransaction::sigma_parse_bytes(bytes).map_err(|e| e.to_string())
}

/// The ids of the inputs of a reduced transaction's unsigned transaction, in order.
#[verifier::external_body]
pub(crate) fn reduced_input_ids(tx: &ReducedTransaction) -> (r: Vec<BoxId>)
    ensures
        r@ == reduced_input_ids_of(*tx),
{
    tx.unsigned_tx.inputs.iter().map(|i| i.box_id).collect()
}

/// The output candidates of a reduced transaction's unsigned transaction, in order.
#[verifier::external_body]
pub(crate) fn reduced_outputs(tx: &ReducedTransaction) -> (r: Vec<ErgoBoxCandidate>)
    ensures
        r@ == reduced_outputs_of(*tx),
{
    tx.unsigned_tx.output_candidates.as_vec().clone()
}

/// `Wallet::from_secrets`; the wallet is named.
#[verifier::external_body]
pub(crate) fn wallet_of(secrets: Vec<SecretKey>) -> (r: Wallet)
    ensures
        r == wallet_from(secrets@),
{
    Wallet::from_secrets(secrets)
}

/// `Wallet::sign_transaction` with no hints. The proofs are random, so the result is not
/// named; the signed transaction spends the context's transaction's inputs and creates its
/// outputs (`sign_transaction` rebuilds it from them with `Transaction::new`). When
/// proving succeeds is not stated. The error is the outside error's text.
#[verifier::external_body]
pub(crate) fn wallet_sign(wallet: &Wallet, ctx: SpendingContext, state: &ErgoStateContext) -> (r: Result<Transaction, String>)
    ensures
        r matches Ok(t) ==> signed_input_ids(t) == unsigned_input_ids(context_tx(ctx))
            && signed_outputs(t) == unsigned_outputs(context_tx(ctx)),
{
    wallet.sign_transaction(ctx.inner, state, None).map_err(|e| e.to_string())
}

/// `Wallet::sign_reduced_transaction` with no hints. The proofs are random, so the result
/// is not named; the signed transaction spends the reduced transaction's inputs and
/// creates its outputs (`sign_reduced_transaction` rebuilds it from them). When proving
/// succeeds is not stated. The error is the outside error's text.
#[verifier::external_body]
pub(crate) fn wallet_sign_reduced(wallet: &Wallet, tx: ReducedTransaction) -> (r: Result<Transaction, String>)
    ensures
        r matches Ok(t) ==> signed_input_ids(t) == reduced_input_ids_of(tx)
            && signed_outputs(t) == reduced_outputs_of(tx),
{
    wallet.sign_reduced_transaction(tx, None).map_err(|e| e.to_string())
}

// ---------------------------------------------------------------------------
// Base64.
// ---------------------------------------------------------------------------

/// `URL_SAFE_NO_PAD.encode`. The text is named; decoding it with the same engine gives the
/// bytes back.
#[verifier::external_body]
pub(crate) fn base64_encode_url_nopad(bytes: &Vec<u8>) -> (r: String)
    ensures
        r@ == base64_url_nopad_encode(bytes@),
        base64_url_nopad_decode(r@) == Some(bytes@),
{
    base64::engine::general_purpose::URL_SAFE_NO_PAD.encode(bytes)
}

/// `URL_SAFE_NO_PAD.decode`; the result is named. The error is the outside error's text.
#[verifier::external_body]
pub(crate) fn base64_decode_url_nopad(text: &str) -> (r: Result<Vec<u8>, String>)
    ensures
        r is Ok <==> base64_url_nopad_decode(text@) is Some,
        r matches Ok(b) ==> b@ == base64_url_nopad_decode(text@)->0,
{
    base64::engine::general_purpose::URL_SAFE_NO_PAD.decode(text).map_err(|e| e.to_string())
}

/// `URL_SAFE.decode`; the result is named. The error is the outside error's text.
#[verifier::external_body]
pub(crate) fn base64_decode_url_pad(text: &str) -> (r: Result<Vec<u8>, String>)
    ensures
        r is Ok <==> base64_url_pad_decode(text@) is Some,
        r matches Ok(b) ==> b@ == base64_url_pad_decode(text@)->0,
{
    base64::engine::general_purpose::URL_SAFE.decode(text).map_err(|e| e.to_string())
}

/// `STANDARD.decode`; the result is named. The error is the outside error's text.
#[verifier::external_body]
pub(crate) fn base64_decode_std_pad(text: &str) -> (r: Result<Vec<u8>, String>)
    ensures
        r is Ok <==> base64_std_pad_decode(text@) is Some,
        r matches Ok(b) ==> b@ == base64_std_pad_decode(text@)->0,
{
    base64::engine::general_purpose::STANDARD.decode(text).map_err(|e| e.to_string())
}

/// `STANDARD_NO_PAD.decode`; the result is named. The error is the outside error's text.
#[verifier::external_body]
pub(crate) fn base64_decode_std_nopad(text: &str) -> (r: Result<Vec<u8>, String>)
    ensures
        r is Ok <==> base64_std_nopad_decode(text@) is Some,
        r matches Ok(b) ==> b@ == base64_std_nopad_decode(text@)->0,
{
    base64::engine::general_purpose::STANDARD_NO_PAD.decode(text).map_err(|e| e.to_string())
}

} // verus!
