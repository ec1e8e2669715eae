//! Reading the JSON inputs of a transaction request: boxes, candidates, headers,
//! context extensions, the change address and the fee.
use vstd::prelude::*;
use vstd::string::*;

use ergo_lib::ergo_chain_types::Header;
use ergo_lib::ergotree_ir::chain::address::Address;
use ergo_lib::ergotree_ir::chain::ergo_box::box_value::BoxValue;
use ergo_lib::ergotree_ir::chain::ergo_box::{ErgoBox, ErgoBoxCandidate};

use crate::error::WalletError;
use crate::outside::{
    address_decodes, box_value_amount, box_value_from, box_value_named, candidate_from_json, decode_address,
    decoded_address, ergo_box_from_json, header_from_json, json_array, json_array_items,
    json_array_length, json_nested_maps, json_extension_entries, json_value_box,
    json_value_candidate, json_value_header, entry_texts,
};
use crate::text::is_empty_or_pair;

verus! {

/// Why a JSON list of boxes or candidates does not read.
#[derive(Debug)]
pub enum ListError {
    /// The text is not a JSON array; the cause is serde_json's.
    NotAList(String),
    /// An element does not read as the item; the cause is serde_json's.
    BadElement(String),
}

/// The boxes of a JSON array whose every element reads as a box; `None` when the text is
/// not an array or some element is not a box.
pub open spec fn json_boxes(text: Seq<char>) -> Option<Seq<ErgoBox>> {
    match json_array_items(text) {
        None => None,
        Some(items) => if forall|i: int| 0 <= i < items.len() ==> (#[trigger] json_value_box(items[i])) is Some {
            Some(items.map_values(|v: serde_json::Value| json_value_box(v)->0))
        } else {
            None
        },
    }
}

/// The output candidates of a JSON array whose every element reads as one; `None` when
/// the text is not an array or some element is not a candidate.
pub open spec fn json_candidates(text: Seq<char>) -> Option<Seq<ErgoBoxCandidate>> {
    match json_array_items(text) {
        None => None,
        Some(items) => if forall|i: int| 0 <= i < items.len() ==> (#[trigger] json_value_candidate(items[i])) is Some {
            Some(items.map_values(|v: serde_json::Value| json_value_candidate(v)->0))
        } else {
            None
        },
    }
}

/// The first ten headers of a JSON array of at least ten elements whose first ten read as
/// headers; `None` otherwise.
pub open spec fn json_headers(text: Seq<char>) -> Option<Seq<Header>> {
    match json_array_items(text) {
        None => None,
        Some(items) => if items.len() >= 10
            && forall|i: int| 0 <= i < 10 ==> (#[trigger] json_value_header(items[i])) is Some {
            Some(items.take(10).map_values(|v: serde_json::Value| json_value_header(v)->0))
        } else {
            None
        },
    }
}

/// Reads a JSON array of boxes, element by element; the first element that is not a
/// box decides the error.
pub fn parse_box_list(text: &str) -> (r: Result<Vec<ErgoBox>, ListError>)
    ensures
        json_array_length(text@) is None <==> (r matches Err(e) && e is NotAList),
        r is Ok <==> json_boxes(text@) is Some,
        r matches Ok(v) ==> json_boxes(text@) == Some(v@) && json_array_length(text@) == Some(v@.len()),
{
    let values = match json_array(text) {
        Ok(v) => v,
        Err(e) => {
            return Err(ListError::NotAList(e));
        },
    };
    let mut out: Vec<ErgoBox> = Vec::new();
    let mut i: usize = 0;
    while i < values.len()
        invariant
            i <= values@.len(),
            out@.len() == i,
            json_array_items(text@) == Some(values@),
            forall|k: int| 0 <= k < i ==> (#[trigger] json_value_box(values@[k])) == Some(out@[k]),
        decreases values@.len() - i,
    {
        match ergo_box_from_json(&values[i]) {
            Ok(b) => {
                out.push(b);
            },
            Err(e) => {
                return Err(ListError::BadElement(e));
            },
        }
        i = i + 1;
    }
    assert(out@ =~= values@.map_values(|v: serde_json::Value| json_value_box(v)->0));
    Ok(out)
}

/// Reads a JSON array of output candidates, as `parse_box_list` reads boxes.
pub fn parse_candidate_list(text: &str) -> (r: Result<Vec<ErgoBoxCandidate>, ListError>)
    ensures
        json_array_length(text@) is None <==> (r matches Err(e) && e is NotAList),
        r is Ok <==> json_candidates(text@) is Some,
        r matches Ok(v) ==> json_candidates(text@) == Some(v@) && json_array_length(text@) == Some(v@.len()),
{
    let values = match json_array(text) {
        Ok(v) => v,
        Err(e) => {
            return Err(ListError::NotAList(e));
        },
    };
    let mut out: Vec<ErgoBoxCandidate> = Vec::new();
    let mut i: usize = 0;
    while i < values.len()
        invariant
            i <= values@.len(),
            out@.len() == i,
            json_array_items(text@) == Some(values@),
            forall|k: int| 0 <= k < i ==> (#[trigger] json_value_candidate(values@[k])) == Some(out@[k]),
        decreases values@.len() - i,
    {
        match candidate_from_json(&values[i]) {
            Ok(c) => {
                out.push(c);
            },
            Err(e) => {
                return Err(ListError::BadElement(e));
            },
        }
        i = i + 1;
    }
    assert(out@ =~= values@.map_values(|v: serde_json::Value| json_value_candidate(v)->0));
    Ok(out)
}

/// Reads the input boxes of a request; `signing` selects the wording of the error.
pub fn parse_input_boxes(text: &str, signing: bool) -> (r: Result<Vec<ErgoBox>, WalletError>)
    ensures
        json_array_length(text@) is None <==> (r matches Err(e) && e matches WalletError::InputList(s, _) && s == signing),
        r is Ok <==> json_boxes(text@) is Some,
        r matches Ok(v) ==> json_boxes(text@) == Some(v@) && json_array_length(text@) == Some(v@.len()),
        r matches Err(e) ==> e is InputList || e is InputBox,
        r matches Err(WalletError::InputList(s, _)) ==> s == signing,
{
    match parse_box_list(text) {
        Ok(v) => Ok(v),
        Err(ListError::NotAList(c)) => Err(WalletError::InputList(signing, c)),
        Err(ListError::BadElement(c)) => Err(WalletError::InputBox(c)),
    }
}

/// Reads the output candidates of a request; `signing` selects the wording of the error.
pub fn parse_output_candidates(text: &str, signing: bool) -> (r: Result<Vec<ErgoBoxCandidate>, WalletError>)
    ensures
        json_array_length(text@) is None <==> (r matches Err(e) && e matches WalletError::OutputList(s, _) && s == signing),
        r is Ok <==> json_candidates(text@) is Some,
        r matches Ok(v) ==> json_candidates(text@) == Some(v@) && json_array_length(text@) == Some(v@.len()),
        r matches Err(e) ==> e is OutputList || e is Candidate,
        r matches Err(WalletError::OutputList(s, _)) ==> s == signing,
{
    match parse_candidate_list(text) {
        Ok(v) => Ok(v),
        Err(ListError::NotAList(c)) => Err(WalletError::OutputList(signing, c)),
        Err(ListError::BadElement(c)) => Err(WalletError::Candidate(c)),
    }
}

/// An empty text, or exactly `[]`: no data inputs.
pub open spec fn no_data_inputs_text(text: Seq<char>) -> bool {
    text.len() == 0 || text == seq!['[', ']']
}

/// The data-input boxes of a text: none for an empty text or `[]`, else the boxes of a
/// JSON array of boxes.
pub open spec fn data_boxes_of(text: Seq<char>) -> Option<Seq<ErgoBox>> {
    if no_data_inputs_text(text) {
        Some(Seq::empty())
    } else {
        json_boxes(text)
    }
}

/// Reads the data-input boxes: an empty text or `[]` means none; anything else is read
/// as a JSON array of boxes.
pub fn parse_data_boxes(text: &str) -> (r: Result<Vec<ErgoBox>, WalletError>)
    ensures
        no_data_inputs_text(text@) ==> (r matches Ok(v) && v@.len() == 0),
        !no_data_inputs_text(text@) ==> {
            &&& json_array_length(text@) is None <==> (r matches Err(e) && e is DataInputList)
            &&& r matches Ok(v) ==> json_array_length(text@) == Some(v@.len())
        },
        r is Ok <==> data_boxes_of(text@) is Some,
        r matches Ok(v) ==> data_boxes_of(text@) == Some(v@),
        r matches Err(e) ==> e is DataInputList || e is DataInputBox,
{
    if is_empty_or_pair(text, '[', ']') {
        Ok(Vec::new())
    } else {
        match parse_box_list(text) {
            Ok(v) => Ok(v),
            Err(ListError::NotAList(c)) => Err(WalletError::DataInputList(c)),
            Err(ListError::BadElement(c)) => Err(WalletError::DataInputBox(c)),
        }
    }
}

/// Reads the last block headers, newest first: the text must be a JSON array of at least
/// ten elements, and its first ten are read as headers (the rest are ignored).
pub fn parse_headers(text: &str) -> (r: Result<Vec<Header>, WalletError>)
    ensures
        json_array_length(text@) is None <==> (r matches Err(e) && e is Headers),
        json_array_length(text@) matches Some(n) ==> (n < 10 <==> (r matches Err(e) && e matches WalletError::TooFewHeaders(m) && m == n)),
        r is Ok <==> json_headers(text@) is Some,
        r matches Ok(v) ==> v@.len() == 10 && json_headers(text@) == Some(v@),
        r matches Err(e) ==> e is Headers || e is TooFewHeaders || e is Header,
        r matches Err(WalletError::TooFewHeaders(m)) ==> json_array_length(text@) == Some(m as nat) && m < 10,
{
    let values = match json_array(text) {
        Ok(v) => v,
        Err(e) => {
            return Err(WalletError::Headers(e));
        },
    };
    if values.len() < 10 {
        return Err(WalletError::TooFewHeaders(values.len()));
    }
    let mut out: Vec<Header> = Vec::new();
    let mut i: usize = 0;
    while i < 10
        invariant
            i <= 10,
            10 <= values@.len(),
            out@.len() == i,
            json_array_items(text@) == Some(values@),
            forall|k: int| 0 <= k < i ==> (#[trigger] json_value_header(values@[k])) == Some(out@[k]),
        decreases 10 - i,
    {
        match header_from_json(&values[i]) {
            Ok(h) => {
                out.push(h);
            },
            Err(e) => {
                return Err(WalletError::Header(e));
            },
        }
        i = i + 1;
    }
    assert(out@ =~= values@.take(10).map_values(|v: serde_json::Value| json_value_header(v)->0));
    Ok(out)
}

/// An empty text, or exactly `{}`: no context extensions.
pub open spec fn no_extensions_text(text: Seq<char>) -> bool {
    text.len() == 0 || text == seq!['{', '}']
}

/// The context-extension entries of a text, in the text's order: none for an empty text
/// or `{}`, else the entries of a JSON object of objects of strings.
pub open spec fn extension_entries(text: Seq<char>) -> Option<Seq<(Seq<char>, Seq<(Seq<char>, Seq<char>)>)>> {
    if no_extensions_text(text) {
        Some(Seq::empty())
    } else {
        json_extension_entries(text)
    }
}

/// Reads the context extensions, `{"input index": {"key": "hex value", ...}, ...}`, in the
/// text's order: an empty text or `{}` means none.
pub fn parse_context_extensions(text: &str) -> (r: Result<Vec<(String, Vec<(String, String)>)>, WalletError>)
    ensures
        r is Ok <==> extension_entries(text@) is Some,
        r matches Ok(v) ==> extension_entries(text@) == Some(entry_texts(v@)),
        r matches Err(e) ==> e is ContextExtensions,
{
    if is_empty_or_pair(text, '{', '}') {
        let none: Vec<(String, Vec<(String, String)>)> = Vec::new();
        assert(entry_texts(none@) =~= Seq::<(Seq<char>, Seq<(Seq<char>, Seq<char>)>)>::empty());
        Ok(none)
    } else {
        match json_nested_maps(text) {
            Ok(v) => Ok(v),
            Err(e) => Err(WalletError::ContextExtensions(e)),
        }
    }
}

/// The change address of a text: its mainnet reading, else its testnet reading.
pub open spec fn change_address_of(text: Seq<char>) -> Option<Address> {
    match decoded_address(text, true) {
        Some(a) => Some(a),
        None => decoded_address(text, false),
    }
}

/// Reads the change address: as a mainnet address, else as a testnet one; when neither
/// reads it, the cause is the testnet reading's.
pub fn parse_change_address(text: &str) -> (r: Result<Address, WalletError>)
    ensures
        r is Ok <==> (address_decodes(text@, true) || address_decodes(text@, false)),
        r matches Ok(a) ==> change_address_of(text@) == Some(a),
        r matches Err(e) ==> e is ChangeAddress,
{
    match decode_address(text, true) {
        Ok(a) => Ok(a),
        Err(_) => match decode_address(text, false) {
            Ok(a) => Ok(a),
            Err(e) => Err(WalletError::ChangeAddress(e)),
        },
    }
}

/// A `jlong` reinterpreted as unsigned (`as u64`).
pub open spec fn unsigned_64(x: i64) -> int {
    if x >= 0 { x as int } else { x + 0x1_0000_0000_0000_0000 }
}

/// Reads the miner fee: the signed amount reinterpreted as unsigned must lie within the
/// box value bounds, 10 800 through `i64::MAX` nanoERG.
pub fn parse_fee(fee_nano: i64) -> (r: Result<BoxValue, WalletError>)
    ensures
        r is Ok <==> (10800 <= unsigned_64(fee_nano) <= 0x7fff_ffff_ffff_ffff),
        r matches Ok(v) ==> v == box_value_named(unsigned_64(fee_nano) as u64)
            && box_value_amount(v) == unsigned_64(fee_nano),
        r matches Err(e) ==> e is Fee,
{
    let unsigned: u64 = if fee_nano >= 0 {
        fee_nano as u64
    } else {
        let shifted: i128 = fee_nano as i128 + 0x1_0000_0000_0000_0000i128;
        shifted as u64
    };
    match box_value_from(unsigned) {
        Ok(v) => Ok(v),
        Err(e) => Err(WalletError::Fee(e)),
    }
}

} // verus!
