//! Building a transaction from a JSON request, then reducing it (ErgoPay) or signing it.
use vstd::prelude::*;
use vstd::string::*;

use ergo_lib::chain::ergo_state_context::ErgoStateContext;
use ergo_lib::chain::transaction::unsigned::UnsignedTransaction;
use ergo_lib::chain::transaction::Transaction;
use ergo_lib::ergotree_ir::chain::ergo_box::{BoxId, ErgoBox, ErgoBoxCandidate};
use ergo_lib::ergotree_interpreter::sigma_protocol::prover::ContextExtension;

use crate::encoding::{decode_any_base64, encode_base64_url};
use crate::error::WalletError;
use crate::inputs::{
    change_address_of, data_boxes_of, extension_entries, json_boxes, json_candidates, json_headers,
    no_data_inputs_text, parse_change_address, parse_context_extensions, parse_data_boxes, parse_fee,
    parse_headers, parse_input_boxes, parse_output_candidates, unsigned_64,
};
use crate::keys::{key_error_explained, signing_wallet, wallet_keys_derive};
use crate::outside::{
    address_decodes, base64_url_nopad_encode, box_id, box_id_of, box_value, box_value_named,
    box_value_of, box_values_total, builder_with_data_inputs, builder_with_extension, built_tx,
    candidate_value, candidate_value_of, candidate_values_total, context_extension_from,
    context_extension_of, entry_texts, json_array_length, pre_header_from, pre_header_of,
    reduce_transaction, reduced_bytes_of, reduced_of, reduced_to_bytes, reduced_tx_decodes,
    selection_of, signed_input_ids, signed_outputs, spend_all, spending_context,
    spending_context_of, state_context_from, state_context_of, transaction_json,
    transaction_json_text, tx_builder_build, tx_builder_new, tx_builder_of,
    tx_builder_set_context_extension, tx_builder_set_data_inputs, unsigned_input_ids,
    unsigned_outputs,  wallet_sign, SpendingContext, UnsignedTxBuilder,
};
use crate::text::{parse_usize, parse_usize_spec, IntParseError};

verus! {

// ---------------------------------------------------------------------------
// Context extensions.
// ---------------------------------------------------------------------------

/// Whether a context-extension entry (key, (key, hex value) pairs) fails for a transaction
/// with `n_inputs` inputs: its key is not a decimal number, or it names an input and its
/// values do not make a context extension. An entry past the last input is skipped.
pub open spec fn entry_fails(entry: (Seq<char>, Seq<(Seq<char>, Seq<char>)>), n_inputs: nat) -> bool {
    match parse_usize_spec(entry.0) {
        Err(_) => true,
        Ok(idx) => idx < n_inputs && context_extension_from(entry.1) is None,
    }
}

/// Entry `k` is the first failing entry.
pub open spec fn is_first_failing(entries: Seq<(Seq<char>, Seq<(Seq<char>, Seq<char>)>)>, n_inputs: nat, k: int) -> bool {
    &&& 0 <= k < entries.len()
    &&& entry_fails(entries[k], n_inputs)
    &&& forall|j: int| 0 <= j < k ==> !entry_fails(#[trigger] entries[j], n_inputs)
}

/// The position of the first failing entry, if any.
pub open spec fn first_failing_entry(entries: Seq<(Seq<char>, Seq<(Seq<char>, Seq<char>)>)>, n_inputs: nat) -> Option<int> {
    if exists|k: int| is_first_failing(entries, n_inputs, k) {
        Some(choose|k: int| is_first_failing(entries, n_inputs, k))
    } else {
        None
    }
}

/// The error that a failing entry reports: the key's parse error, or the input's position
/// for values that do not make an extension.
pub open spec fn entry_error(entry: (Seq<char>, Seq<(Seq<char>, Seq<char>)>), e: WalletError) -> bool {
    match parse_usize_spec(entry.0) {
        Err(pe) => e == WalletError::ExtIndex(pe),
        Ok(idx) => e matches WalletError::ExtValues(i, _) && i == idx,
    }
}

/// One entry applied to a builder: a key that is an input's position sets that input's
/// extension; a key past the last input is skipped; `None` when the entry fails.
pub open spec fn apply_extension_entry(
    builder: UnsignedTxBuilder,
    entry: (Seq<char>, Seq<(Seq<char>, Seq<char>)>),
    boxes: Seq<ErgoBox>,
) -> Option<UnsignedTxBuilder> {
    match parse_usize_spec(entry.0) {
        Err(_) => None,
        Ok(idx) => if idx < boxes.len() {
            match context_extension_from(entry.1) {
                Some(ext) => Some(builder_with_extension(builder, box_id_of(boxes[idx as int]), ext)),
                None => None,
            }
        } else {
            Some(builder)
        },
    }
}

/// The entries applied to a builder in order; `None` when one fails.
pub open spec fn extensions_applied(
    builder: UnsignedTxBuilder,
    entries: Seq<(Seq<char>, Seq<(Seq<char>, Seq<char>)>)>,
    boxes: Seq<ErgoBox>,
) -> Option<UnsignedTxBuilder>
    decreases entries.len(),
{
    if entries.len() == 0 {
        Some(builder)
    } else {
        match extensions_applied(builder, entries.drop_last(), boxes) {
            Some(b) => apply_extension_entry(b, entries.last(), boxes),
            None => None,
        }
    }
}

/// An entry whose key is the decimal position `idx` of an input sets its extension on that
/// input's box and on no other: applied alone to a builder, it gives the builder with the
/// extension set for the id of box `idx`. An entry whose position is past the last input
/// leaves the builder as it was; an entry whose key is no number fails.
pub proof fn law_extension_lands_on_its_input(
    builder: UnsignedTxBuilder,
    key: Seq<char>,
    pairs: Seq<(Seq<char>, Seq<char>)>,
    boxes: Seq<ErgoBox>,
)
    ensures
        parse_usize_spec(key) is Err ==> extensions_applied(builder, seq![(key, pairs)], boxes) is None,
        parse_usize_spec(key) matches Ok(idx) && idx >= boxes.len()
            ==> extensions_applied(builder, seq![(key, pairs)], boxes) == Some(builder),
        forall|idx: nat, ext: ContextExtension|
            parse_usize_spec(key) == Ok::<nat, IntParseError>(idx) && idx < boxes.len()
                && #[trigger] context_extension_from(pairs) == Some(ext)
            ==> extensions_applied(builder, seq![(key, pairs)], boxes)
                == Some(builder_with_extension(builder, box_id_of(boxes[idx as int]), ext)),
        parse_usize_spec(key) matches Ok(idx) && idx < boxes.len() && context_extension_from(pairs) is None
            ==> extensions_applied(builder, seq![(key, pairs)], boxes) is None,
{
    let one = seq![(key, pairs)];
    let none = Seq::<(Seq<char>, Seq<(Seq<char>, Seq<char>)>)>::empty();
    assert(one.drop_last() =~= none);
    assert(one.last() == (key, pairs));
    assert(extensions_applied(builder, none, boxes) == Some(builder));
    assert(extensions_applied(builder, one, boxes) == apply_extension_entry(builder, (key, pairs), boxes));
}

/// Entries are applied one after another: applying a list and then one more entry is
/// applying that entry to the builder that the list gave.
pub proof fn law_entries_apply_in_order(
    builder: UnsignedTxBuilder,
    entries: Seq<(Seq<char>, Seq<(Seq<char>, Seq<char>)>)>,
    entry: (Seq<char>, Seq<(Seq<char>, Seq<char>)>),
    boxes: Seq<ErgoBox>,
)
    ensures
        extensions_applied(builder, entries.push(entry), boxes) == match extensions_applied(builder, entries, boxes) {
            Some(b) => extensions_applied(b, seq![entry], boxes),
            None => None,
        },
{
    assert(entries.push(entry).drop_last() =~= entries);
    law_extension_lands_on_its_input(builder, entry.0, entry.1, boxes);
    if let Some(b) = extensions_applied(builder, entries, boxes) {
        law_extension_lands_on_its_input(b, entry.0, entry.1, boxes);
        let one = seq![entry];
        assert(one.drop_last() =~= Seq::<(Seq<char>, Seq<(Seq<char>, Seq<char>)>)>::empty());
    }
}

proof fn lemma_first_failing_unique(entries: Seq<(Seq<char>, Seq<(Seq<char>, Seq<char>)>)>, n: nat, k: int)
    requires
        is_first_failing(entries, n, k),
    ensures
        first_failing_entry(entries, n) == Some(k),
{
    let c = choose|c: int| is_first_failing(entries, n, c);
    assert(is_first_failing(entries, n, c));
    if c < k {
        assert(!entry_fails(entries[c], n));
    } else if c > k {
        assert(!entry_fails(entries[k], n));
    }
}

/// Sets the context extensions of the inputs on a builder, entry by entry in order: each
/// entry's key is the input's position in decimal; entries for positions past the last
/// input are skipped. The first failing entry decides the error.
pub fn apply_context_extensions(
    builder: &mut UnsignedTxBuilder,
    extensions: &Vec<(String, Vec<(String, String)>)>,
    input_boxes: &Vec<ErgoBox>,
) -> (r: Result<(), WalletError>)
    ensures
        match first_failing_entry(entry_texts(extensions@), input_boxes@.len()) {
            Some(k) => r matches Err(e) && entry_error(entry_texts(extensions@)[k], e),
            None => r is Ok && extensions_applied(*old(builder), entry_texts(extensions@), input_boxes@) == Some(*final(builder)),
        },
{
    let ghost start = *builder;
    let ghost texts = entry_texts(extensions@);
    let ghost n: nat = input_boxes@.len();
    let mut k: usize = 0;
    assert(texts.take(0) =~= Seq::<(Seq<char>, Seq<(Seq<char>, Seq<char>)>)>::empty());
    while k < extensions.len()
        invariant
            k <= extensions@.len(),
            texts == entry_texts(extensions@),
            n == input_boxes@.len(),
            forall|j: int| 0 <= j < k ==> !entry_fails(#[trigger] texts[j], n),
            extensions_applied(start, texts.take(k as int), input_boxes@) == Some(*builder),
        decreases extensions@.len() - k,
    {
        let entry = &extensions[k];
        assert(texts.take(k + 1).drop_last() =~= texts.take(k as int));
        assert(texts.take(k + 1).last() == texts[k as int]);
        assert(texts[k as int] == (entry.0@, crate::outside::pair_texts(entry.1@)));
        match parse_usize(entry.0.as_str()) {
            Err(pe) => {
                proof {
                    lemma_first_failing_unique(texts, n, k as int);
                }
                return Err(WalletError::ExtIndex(pe));
            },
            Ok(idx) => {
                if idx < input_boxes.len() {
                    match context_extension_of(&entry.1) {
                        Ok(ext) => {
                            tx_builder_set_context_extension(builder, box_id(&input_boxes[idx]), ext);
                        },
                        Err(c) => {
                            proof {
                                lemma_first_failing_unique(texts, n, k as int);
                            }
                            return Err(WalletError::ExtValues(idx, c));
                        },
                    }
                }
            },
        }
        k = k + 1;
    }
    assert(texts.take(k as int) =~= texts);
    assert(!exists|c: int| is_first_failing(texts, n, c));
    Ok(())
}

// ---------------------------------------------------------------------------
// Value sums.
// ---------------------------------------------------------------------------

proof fn lemma_box_total_prefix(boxes: Seq<ErgoBox>, i: int)
    requires
        0 <= i <= boxes.len(),
    ensures
        0 <= box_values_total(boxes.take(i)) <= box_values_total(boxes),
    decreases boxes.len(),
{
    if boxes.len() > 0 {
        if i < boxes.len() {
            lemma_box_total_prefix(boxes.drop_last(), i);
            assert(boxes.drop_last().take(i) =~= boxes.take(i));
        } else {
            assert(boxes.take(i) =~= boxes);
            lemma_box_total_prefix(boxes.drop_last(), i - 1);
            assert(boxes.drop_last().take(i - 1) =~= boxes.drop_last());
        }
    } else {
        assert(boxes.take(i) =~= boxes);
    }
}

proof fn lemma_candidate_total_prefix(candidates: Seq<ErgoBoxCandidate>, i: int)
    requires
        0 <= i <= candidates.len(),
    ensures
        0 <= candidate_values_total(candidates.take(i)) <= candidate_values_total(candidates),
    decreases candidates.len(),
{
    if candidates.len() > 0 {
        if i < candidates.len() {
            lemma_candidate_total_prefix(candidates.drop_last(), i);
            assert(candidates.drop_last().take(i) =~= candidates.take(i));
        } else {
            assert(candidates.take(i) =~= candidates);
            lemma_candidate_total_prefix(candidates.drop_last(), i - 1);
            assert(candidates.drop_last().take(i - 1) =~= candidates.drop_last());
        }
    } else {
        assert(candidates.take(i) =~= candidates);
    }
}

/// The sum of the values of boxes, or `None` when it passes `u64::MAX`.
pub fn total_box_values(boxes: &Vec<ErgoBox>) -> (r: Option<u64>)
    ensures
        match r {
            Some(t) => t == box_values_total(boxes@),
            None => box_values_total(boxes@) > u64::MAX,
        },
{
    let mut acc: u64 = 0;
    let mut i: usize = 0;
    assert(boxes@.take(0) =~= Seq::<ErgoBox>::empty());
    while i < boxes.len()
        invariant
            i <= boxes@.len(),
            acc == box_values_total(boxes@.take(i as int)),
        decreases boxes@.len() - i,
    {
        assert(boxes@.take(i + 1).drop_last() =~= boxes@.take(i as int));
        match acc.checked_add(box_value(&boxes[i])) {
            Some(next) => {
                acc = next;
            },
            None => {
                proof {
                    lemma_box_total_prefix(boxes@, i + 1);
                }
                return None;
            },
        }
        i = i + 1;
    }
    assert(boxes@.take(i as int) =~= boxes@);
    Some(acc)
}

/// The sum of the values of output candidates, or `None` when it passes `u64::MAX`.
pub fn total_candidate_values(candidates: &Vec<ErgoBoxCandidate>) -> (r: Option<u64>)
    ensures
        match r {
            Some(t) => t == candidate_values_total(candidates@),
            None => candidate_values_total(candidates@) > u64::MAX,
        },
{
    let mut acc: u64 = 0;
    let mut i: usize = 0;
    assert(candidates@.take(0) =~= Seq::<ErgoBoxCandidate>::empty());
    while i < candidates.len()
        invariant
            i <= candidates@.len(),
            acc == candidate_values_total(candidates@.take(i as int)),
        decreases candidates@.len() - i,
    {
        assert(candidates@.take(i + 1).drop_last() =~= candidates@.take(i as int));
        match acc.checked_add(candidate_value(&candidates[i])) {
            Some(next) => {
                acc = next;
            },
            None => {
                proof {
                    lemma_candidate_total_prefix(candidates@, i + 1);
                }
                return None;
            },
        }
        i = i + 1;
    }
    assert(candidates@.take(i as int) =~= candidates@);
    Some(acc)
}

// ---------------------------------------------------------------------------
// Requests.
// ---------------------------------------------------------------------------

/// An unsigned transaction with what spending it needs.
pub struct PreparedTransaction {
    pub unsigned: UnsignedTransaction,
    pub input_boxes: Vec<ErgoBox>,
    pub data_boxes: Vec<ErgoBox>,
    pub state: ErgoStateContext,
}

/// The readings of a request that can fail, in the order they are made; the failing one
/// decides the error.
pub enum RequestFailure {
    /// The inputs are not a JSON array.
    InputList,
    /// An input is not a box.
    InputBox,
    /// The data inputs are neither none nor a JSON array.
    DataInputList,
    /// A data input is not a box.
    DataInputBox,
    /// The context extensions are neither none nor a JSON object of objects of strings.
    ContextExtensions,
    /// The outputs are not a JSON array.
    OutputList,
    /// An output is not a candidate.
    Candidate,
    /// The headers are not a JSON array.
    Headers,
    /// The headers are a JSON array of this many (fewer than ten) elements.
    TooFewHeaders(usize),
    /// One of the first ten headers is not a header.
    Header,
    /// The change address decodes on neither network.
    ChangeAddress,
    /// The fee lies outside the box value bounds.
    Fee,
    /// The input values, or the output values with the fee, sum past `u64::MAX`.
    ValueOverflow,
    /// There are no inputs, or more than `i16::MAX`.
    NoInputs,
    /// A context-extension key is not a decimal number.
    ExtIndex(IntParseError),
    /// The values of the context extension of this input do not make one.
    ExtValues(usize),
}

/// The first reading of a request that fails; `None` when they all succeed.
pub open spec fn first_request_failure(
    input_boxes_json: Seq<char>,
    data_input_boxes_json: Seq<char>,
    output_candidates_json: Seq<char>,
    fee_nano: i64,
    change_address: Seq<char>,
    last_block_headers_json: Seq<char>,
    context_extensions_json: Seq<char>,
) -> Option<RequestFailure> {
    if json_array_length(input_boxes_json) is None {
        Some(RequestFailure::InputList)
    } else if json_boxes(input_boxes_json) is None {
        Some(RequestFailure::InputBox)
    } else if !no_data_inputs_text(data_input_boxes_json) && json_array_length(data_input_boxes_json) is None {
        Some(RequestFailure::DataInputList)
    } else if data_boxes_of(data_input_boxes_json) is None {
        Some(RequestFailure::DataInputBox)
    } else if extension_entries(context_extensions_json) is None {
        Some(RequestFailure::ContextExtensions)
    } else if json_array_length(output_candidates_json) is None {
        Some(RequestFailure::OutputList)
    } else if json_candidates(output_candidates_json) is None {
        Some(RequestFailure::Candidate)
    } else if json_array_length(last_block_headers_json) is None {
        Some(RequestFailure::Headers)
    } else if json_array_length(last_block_headers_json)->0 < 10 {
        Some(RequestFailure::TooFewHeaders(json_array_length(last_block_headers_json)->0 as usize))
    } else if json_headers(last_block_headers_json) is None {
        Some(RequestFailure::Header)
    } else if !(address_decodes(change_address, true) || address_decodes(change_address, false)) {
        Some(RequestFailure::ChangeAddress)
    } else if !(10800 <= unsigned_64(fee_nano) <= 0x7fff_ffff_ffff_ffff) {
        Some(RequestFailure::Fee)
    } else if box_values_total(json_boxes(input_boxes_json)->0) > u64::MAX
        || candidate_values_total(json_candidates(output_candidates_json)->0) + unsigned_64(fee_nano) > u64::MAX {
        Some(RequestFailure::ValueOverflow)
    } else if !(1 <= json_boxes(input_boxes_json)->0.len() <= 32767) {
        Some(RequestFailure::NoInputs)
    } else {
        let entries = extension_entries(context_extensions_json)->0;
        let n = json_boxes(input_boxes_json)->0.len();
        match first_failing_entry(entries, n) {
            Some(k) => match parse_usize_spec(entries[k].0) {
                Err(pe) => Some(RequestFailure::ExtIndex(pe)),
                Ok(i) => Some(RequestFailure::ExtValues(i as usize)),
            },
            None => None,
        }
    }
}

/// Whether an error is the one that a failed reading reports; `signing` selects the
/// wording of the list errors.
pub open spec fn reports_failure(e: WalletError, f: RequestFailure, signing: bool) -> bool {
    match f {
        RequestFailure::InputList => e matches WalletError::InputList(s, _) && s == signing,
        RequestFailure::InputBox => e is InputBox,
        RequestFailure::DataInputList => e is DataInputList,
        RequestFailure::DataInputBox => e is DataInputBox,
        RequestFailure::ContextExtensions => e is ContextExtensions,
        RequestFailure::OutputList => e matches WalletError::OutputList(s, _) && s == signing,
        RequestFailure::Candidate => e is Candidate,
        RequestFailure::Headers => e is Headers,
        RequestFailure::TooFewHeaders(n) => e matches WalletError::TooFewHeaders(m) && m == n,
        RequestFailure::Header => e is Header,
        RequestFailure::ChangeAddress => e is ChangeAddress,
        RequestFailure::Fee => e is Fee,
        RequestFailure::ValueOverflow => e is ValueOverflow,
        RequestFailure::NoInputs => e is NoInputs,
        RequestFailure::ExtIndex(pe) => e == WalletError::ExtIndex(pe),
        RequestFailure::ExtValues(i) => e matches WalletError::ExtValues(j, _) && j == i,
    }
}

/// The height a transaction is built at: the signed height read as unsigned (`as u32`).
pub open spec fn height_u32(h: i32) -> u32 {
    if h >= 0 { h as u32 } else { (h + 0x1_0000_0000) as u32 }
}

/// The builder of a request before its context extensions: all the input boxes spent
/// (with no change), the outputs, the height, the fee, the change address, and the data
/// inputs' ids when there are data inputs.
pub open spec fn base_builder(
    input_boxes_json: Seq<char>,
    data_input_boxes_json: Seq<char>,
    output_candidates_json: Seq<char>,
    fee_nano: i64,
    change_address: Seq<char>,
    current_height: i32,
) -> UnsignedTxBuilder {
    let fresh = tx_builder_of(
        selection_of(json_boxes(input_boxes_json)->0),
        json_candidates(output_candidates_json)->0,
        height_u32(current_height),
        box_value_named(unsigned_64(fee_nano) as u64),
        change_address_of(change_address)->0,
    );
    let data = data_boxes_of(data_input_boxes_json)->0;
    if data.len() > 0 {
        builder_with_data_inputs(fresh, data.map_values(|b: ErgoBox| box_id_of(b)))
    } else {
        fresh
    }
}

/// The unsigned transaction that a request builds: the base builder with the context
/// extensions applied in the text's order, built; `None` when the builder refuses (or an
/// entry fails).
pub open spec fn unsigned_for(
    input_boxes_json: Seq<char>,
    data_input_boxes_json: Seq<char>,
    output_candidates_json: Seq<char>,
    fee_nano: i64,
    change_address: Seq<char>,
    current_height: i32,
    context_extensions_json: Seq<char>,
) -> Option<UnsignedTransaction> {
    match extensions_applied(
        base_builder(input_boxes_json, data_input_boxes_json, output_candidates_json, fee_nano,
            change_address, current_height),
        extension_entries(context_extensions_json)->0,
        json_boxes(input_boxes_json)->0,
    ) {
        Some(b) => built_tx(b),
        None => None,
    }
}

/// The state context of a request: the pre-header of its newest header, and its first ten
/// headers.
pub open spec fn request_state(last_block_headers_json: Seq<char>) -> ErgoStateContext {
    let headers = json_headers(last_block_headers_json)->0;
    state_context_from(pre_header_of(headers[0]), headers)
}

/// The spending context of an unsigned transaction with a request's input and data boxes.
pub open spec fn request_context(
    u: UnsignedTransaction,
    input_boxes_json: Seq<char>,
    data_input_boxes_json: Seq<char>,
) -> Option<SpendingContext> {
    spending_context_of(u, json_boxes(input_boxes_json)->0, data_boxes_of(data_input_boxes_json)->0)
}

/// Reads a transaction request and builds the unsigned transaction that spends all the
/// given input boxes. `signing` selects the wording of two error messages.
pub fn prepare_transaction(
    input_boxes_json: &str,
    data_input_boxes_json: &str,
    output_candidates_json: &str,
    fee_nano: i64,
    change_address: &str,
    current_height: i32,
    last_block_headers_json: &str,
    context_extensions_json: &str,
    signing: bool,
) -> (r: Result<PreparedTransaction, WalletError>)
    ensures
        match first_request_failure(input_boxes_json@, data_input_boxes_json@, output_candidates_json@,
            fee_nano, change_address@, last_block_headers_json@, context_extensions_json@) {
            Some(f) => r matches Err(e) && reports_failure(e, f, signing),
            None => match unsigned_for(input_boxes_json@, data_input_boxes_json@, output_candidates_json@,
                fee_nano, change_address@, current_height, context_extensions_json@) {
                Some(u) => r matches Ok(p) && p.unsigned == u
                    && p.input_boxes@ == json_boxes(input_boxes_json@)->0
                    && p.data_boxes@ == data_boxes_of(data_input_boxes_json@)->0
                    && p.state == request_state(last_block_headers_json@),
                None => r matches Err(e) && e is Build,
            },
        },
{
    let input_boxes = parse_input_boxes(input_boxes_json, signing)?;
    let data_boxes = parse_data_boxes(data_input_boxes_json)?;
    let extensions = parse_context_extensions(context_extensions_json)?;
    let output_candidates = parse_output_candidates(output_candidates_json, signing)?;
    let headers = parse_headers(last_block_headers_json)?;
    let pre_header = pre_header_from(&headers[0]);
    let state = match state_context_of(pre_header, headers) {
        Some(s) => s,
        None => {
            return Err(WalletError::HeadersArray);
        },
    };
    let change = parse_change_address(change_address)?;
    let fee = parse_fee(fee_nano)?;
    let inputs_total = total_box_values(&input_boxes);
    let outputs_total = total_candidate_values(&output_candidates);
    match (inputs_total, outputs_total) {
        (Some(_), Some(o)) => {
            if o > u64::MAX - fee_amount(&fee, fee_nano) {
                return Err(WalletError::ValueOverflow);
            }
        },
        _ => {
            return Err(WalletError::ValueOverflow);
        },
    }
    let selection = match spend_all(&input_boxes) {
        Some(s) => s,
        None => {
            return Err(WalletError::NoInputs);
        },
    };
    let height: u32 = if current_height >= 0 {
        current_height as u32
    } else {
        let wide: i64 = current_height as i64 + 0x1_0000_0000i64;
        wide as u32
    };
    let mut builder = tx_builder_new(selection, output_candidates, height, fee, change);
    if data_boxes.len() > 0 {
        let mut ids: Vec<BoxId> = Vec::new();
        let mut i: usize = 0;
        while i < data_boxes.len()
            invariant
                i <= data_boxes@.len(),
                ids@.len() == i,
                forall|k: int| 0 <= k < i ==> #[trigger] ids@[k] == box_id_of(data_boxes@[k]),
            decreases data_boxes@.len() - i,
        {
            ids.push(box_id(&data_boxes[i]));
            i = i + 1;
        }
        assert(ids@ =~= data_boxes@.map_values(|b: ErgoBox| box_id_of(b)));
        tx_builder_set_data_inputs(&mut builder, ids);
    }
    assert(builder == base_builder(input_boxes_json@, data_input_boxes_json@, output_candidates_json@,
        fee_nano, change_address@, current_height));
    apply_context_extensions(&mut builder, &extensions, &input_boxes)?;
    let unsigned = match tx_builder_build(builder) {
        Ok(u) => u,
        Err(e) => {
            return Err(WalletError::Build(e));
        },
    };
    Ok(PreparedTransaction { unsigned, input_boxes, data_boxes, state })
}

/// The fee's amount in nanoERG, as read from the request.
fn fee_amount(fee: &ergo_lib::ergotree_ir::chain::ergo_box::box_value::BoxValue, fee_nano: i64) -> (r: u64)
    requires
        crate::outside::box_value_amount(*fee) == unsigned_64(fee_nano),
    ensures
        r == crate::outside::box_value_amount(*fee),
{
    if fee_nano >= 0 {
        fee_nano as u64
    } else {
        let shifted: i128 = fee_nano as i128 + 0x1_0000_0000_0000_0000i128;
        shifted as u64
    }
}

/// A base64 text that the ErgoPay readers accept: it decodes, in one of the four forms,
/// to the bytes of a reduced transaction.
pub open spec fn reduced_tx_text_accepted(text: Seq<char>) -> bool {
    decode_any_base64(text) matches Some(b) && reduced_tx_decodes(b)
}

/// How building the reduced transaction of a request ends, once the request reads: the
/// ErgoPay text, or which step failed.
pub open spec fn reduced_outcome(
    e_or_text: Result<Seq<char>, WalletError>,
    input_boxes_json: Seq<char>,
    data_input_boxes_json: Seq<char>,
    output_candidates_json: Seq<char>,
    fee_nano: i64,
    change_address: Seq<char>,
    current_height: i32,
    last_block_headers_json: Seq<char>,
    context_extensions_json: Seq<char>,
) -> bool {
    match unsigned_for(input_boxes_json, data_input_boxes_json, output_candidates_json, fee_nano,
        change_address, current_height, context_extensions_json) {
        None => e_or_text matches Err(e) && e is Build,
        Some(u) => match request_context(u, input_boxes_json, data_input_boxes_json) {
            None => e_or_text matches Err(e) && e is TxContext,
            Some(c) => match reduced_of(c, request_state(last_block_headers_json)) {
                None => e_or_text matches Err(e) && e is Reduce,
                Some(t) => match reduced_bytes_of(t) {
                    None => e_or_text matches Err(e) && e is Serialize,
                    Some(b) => e_or_text == Ok::<Seq<char>, WalletError>(base64_url_nopad_encode(b)),
                },
            },
        },
    }
}

/// Building a request is determined by its arguments: two builds of the same request
/// that both succeed give the same ErgoPay text (the context extensions are applied in the
/// text's order, not in a hash order).
pub proof fn law_reduced_text_is_determined(
    t1: Seq<char>,
    t2: Seq<char>,
    input_boxes_json: Seq<char>,
    data_input_boxes_json: Seq<char>,
    output_candidates_json: Seq<char>,
    fee_nano: i64,
    change_address: Seq<char>,
    current_height: i32,
    last_block_headers_json: Seq<char>,
    context_extensions_json: Seq<char>,
)
    requires
        reduced_outcome(Ok(t1), input_boxes_json, data_input_boxes_json, output_candidates_json, fee_nano,
            change_address, current_height, last_block_headers_json, context_extensions_json),
        reduced_outcome(Ok(t2), input_boxes_json, data_input_boxes_json, output_candidates_json, fee_nano,
            change_address, current_height, last_block_headers_json, context_extensions_json),
    ensures
        t1 == t2,
{
}

/// A result taken with its text as a view.
pub open spec fn text_result(r: Result<String, WalletError>) -> Result<Seq<char>, WalletError> {
    match r {
        Ok(s) => Ok(s@),
        Err(e) => Err(e),
    }
}

/// Builds the transaction of a request and reduces it for ErgoPay: the reduced
/// transaction's bytes as URL-safe base64 without padding.
pub fn build_reduced_tx(
    input_boxes_json: &str,
    data_input_boxes_json: &str,
    output_candidates_json: &str,
    fee_nano: i64,
    change_address: &str,
    current_height: i32,
    last_block_headers_json: &str,
    context_extensions_json: &str,
) -> (r: Result<String, WalletError>)
    ensures
        match first_request_failure(input_boxes_json@, data_input_boxes_json@, output_candidates_json@,
            fee_nano, change_address@, last_block_headers_json@, context_extensions_json@) {
            Some(f) => r matches Err(e) && reports_failure(e, f, false),
            None => reduced_outcome(text_result(r), input_boxes_json@, data_input_boxes_json@,
                output_candidates_json@, fee_nano, change_address@, current_height,
                last_block_headers_json@, context_extensions_json@),
        },
        r matches Ok(text) ==> reduced_tx_text_accepted(text@),
{
    let prepared = prepare_transaction(
        input_boxes_json,
        data_input_boxes_json,
        output_candidates_json,
        fee_nano,
        change_address,
        current_height,
        last_block_headers_json,
        context_extensions_json,
        false,
    )?;
    let PreparedTransaction { unsigned, input_boxes, data_boxes, state } = prepared;
    let ctx = match spending_context(unsigned, input_boxes, data_boxes) {
        Ok(c) => c,
        Err(e) => {
            return Err(WalletError::TxContext(e));
        },
    };
    let reduced = match reduce_transaction(ctx, &state) {
        Ok(t) => t,
        Err(e) => {
            return Err(WalletError::Reduce(e));
        },
    };
    let bytes = match reduced_to_bytes(&reduced) {
        Ok(b) => b,
        Err(e) => {
            return Err(WalletError::Serialize(e));
        },
    };
    Ok(encode_base64_url(&bytes))
}

/// Signs the transaction of a request with the wallet's first
/// `key_count(derivation_count)` EIP-3 keys: the signed transaction as JSON. The keys are
/// derived before the request is read. The signed transaction spends the built
/// transaction's inputs and creates its outputs.
pub fn sign_transaction_json(
    mnemonic: &str,
    mnemonic_pass: &str,
    input_boxes_json: &str,
    data_input_boxes_json: &str,
    output_candidates_json: &str,
    fee_nano: i64,
    change_address: &str,
    current_height: i32,
    last_block_headers_json: &str,
    context_extensions_json: &str,
    derivation_count: i32,
) -> (r: Result<String, WalletError>)
    ensures
        !wallet_keys_derive(mnemonic@, mnemonic_pass@, derivation_count)
            ==> (r matches Err(e) && key_error_explained(e, mnemonic@, mnemonic_pass@, derivation_count)),
        wallet_keys_derive(mnemonic@, mnemonic_pass@, derivation_count) ==> match first_request_failure(
            input_boxes_json@, data_input_boxes_json@, output_candidates_json@, fee_nano, change_address@,
            last_block_headers_json@, context_extensions_json@) {
            Some(f) => r matches Err(e) && reports_failure(e, f, true),
            None => match unsigned_for(input_boxes_json@, data_input_boxes_json@, output_candidates_json@,
                fee_nano, change_address@, current_height, context_extensions_json@) {
                None => r matches Err(e) && e is Build,
                Some(u) => match request_context(u, input_boxes_json@, data_input_boxes_json@) {
                    None => r matches Err(e) && e is TxContext,
                    Some(_) => {
                        &&& r matches Err(e) ==> e is Sign || e is SerializeJson
                        &&& r matches Ok(text) ==> exists|t: Transaction|
                            #[trigger] transaction_json_text(t) == Some(text@)
                            && signed_input_ids(t) == unsigned_input_ids(u)
                            && signed_outputs(t) == unsigned_outputs(u)
                    },
                },
            },
        },
{
    let wallet = signing_wallet(mnemonic, mnemonic_pass, derivation_count)?;
    let prepared = prepare_transaction(
        input_boxes_json,
        data_input_boxes_json,
        output_candidates_json,
        fee_nano,
        change_address,
        current_height,
        last_block_headers_json,
        context_extensions_json,
        true,
    )?;
    let PreparedTransaction { unsigned, input_boxes, data_boxes, state } = prepared;
    let ctx = match spending_context(unsigned, input_boxes, data_boxes) {
        Ok(c) => c,
        Err(e) => {
            return Err(WalletError::TxContext(e));
        },
    };
    let signed = match wallet_sign(&wallet, ctx, &state) {
        Ok(t) => t,
        Err(e) => {
            return Err(WalletError::Sign(e));
        },
    };
    match transaction_json(&signed) {
        Ok(s) => Ok(s),
        Err(e) => Err(WalletError::SerializeJson(e)),
    }
}

} // verus!
