//! ErgoPay (EIP-20): reading and signing reduced transactions given as base64 text.
use vstd::prelude::*;
use vstd::string::*;

use crate::encoding::{decode_any_base64, decode_base64_any};
use crate::error::WalletError;
use crate::keys::{key_error_explained, signing_wallet, wallet_keys_derive};
use crate::outside::{
    address_of_tree, address_text, box_id_json_text, box_id_text, candidate_tokens,
    candidate_tokens_of, candidate_tree, candidate_tree_of, candidate_value, candidate_value_of,
    encode_address, opt_text, reduced_from_bytes, reduced_input_ids, reduced_input_ids_of,
    reduced_outputs, reduced_outputs_of, reduced_tx_decodes, reduced_tx_of, token_view, tree_address,
    transaction_json, transaction_json_text, wallet_sign_reduced, signed_input_ids,
    signed_outputs,
};
use ergo_lib::chain::transaction::Transaction;
use ergo_lib::chain::transaction::reduced::ReducedTransaction;
use ergo_lib::ergotree_ir::chain::ergo_box::ErgoBoxCandidate;
use crate::tx::reduced_tx_text_accepted;

verus! {

/// A token of an output: its id (as JSON renders it) and its amount.
#[derive(Debug)]
pub struct TokenPreview {
    pub token_id: Option<String>,
    pub amount: u64,
}

/// An output of a transaction: its mainnet address (`unknown` when its script has none),
/// its value in nanoERG and its tokens.
#[derive(Debug)]
pub struct OutputPreview {
    pub address: String,
    pub value: u64,
    pub tokens: Vec<TokenPreview>,
}

/// What a wallet shows of a reduced transaction before it is signed: the ids of the boxes
/// it spends and its outputs, in order.
#[derive(Debug)]
pub struct TxPreview {
    pub inputs: Vec<Option<String>>,
    pub outputs: Vec<OutputPreview>,
}

impl TxPreview {
    /// The number of inputs.
    pub fn input_count(&self) -> (n: usize)
        ensures
            n == self.inputs@.len(),
    {
        self.inputs.len()
    }

    /// The number of outputs.
    pub fn output_count(&self) -> (n: usize)
        ensures
            n == self.outputs@.len(),
    {
        self.outputs.len()
    }
}

/// The preview of an output from its mainnet address (`None` when its script has none),
/// its value and its tokens (id and amount), in order: an output without an address shows
/// `unknown`.
pub fn output_preview(address: Option<String>, value: u64, tokens: &Vec<(Option<String>, u64)>) -> (r: OutputPreview)
    ensures
        r.address@ == (match address {
            Some(a) => a@,
            None => "unknown"@,
        }),
        r.value == value,
        r.tokens@.len() == tokens@.len(),
        forall|t: int| 0 <= t < tokens@.len() ==> (#[trigger] r.tokens@[t]).token_id == tokens@[t].0
            && r.tokens@[t].amount == tokens@[t].1,
{
    let shown = match address {
        Some(a) => a,
        None => String::from_str("unknown"),
    };
    let mut previews: Vec<TokenPreview> = Vec::new();
    let mut t: usize = 0;
    while t < tokens.len()
        invariant
            t <= tokens@.len(),
            previews@.len() == t,
            forall|k: int| 0 <= k < t ==> (#[trigger] previews@[k]).token_id == tokens@[k].0
                && previews@[k].amount == tokens@[k].1,
        decreases tokens@.len() - t,
    {
        let token_id = match &tokens[t].0 {
            Some(id) => Some(id.clone()),
            None => None,
        };
        previews.push(TokenPreview { token_id, amount: tokens[t].1 });
        t = t + 1;
    }
    OutputPreview { address: shown, value, tokens: previews }
}

/// The address an output shows: the mainnet text of its script's address, or `unknown`.
pub open spec fn shown_address(c: ErgoBoxCandidate) -> Seq<char> {
    match tree_address(candidate_tree_of(c)) {
        Some(a) => address_text(a, true),
        None => "unknown"@,
    }
}

/// A preview of an output that shows the candidate: its address, value and tokens.
pub open spec fn previews_output(o: OutputPreview, c: ErgoBoxCandidate) -> bool {
    &&& o.address@ == shown_address(c)
    &&& o.value == candidate_value_of(c)
    &&& o.tokens@.map_values(|t: TokenPreview| (opt_text(t.token_id), t.amount)) == candidate_tokens_of(c)
}

/// A preview that shows a reduced transaction: the ids of its inputs and its outputs, in
/// order.
pub open spec fn previews_tx(p: TxPreview, tx: ReducedTransaction) -> bool {
    &&& p.inputs@.map_values(|s: Option<String>| opt_text(s)) == reduced_input_ids_of(tx).map_values(|id| box_id_json_text(id))
    &&& p.outputs@.len() == reduced_outputs_of(tx).len()
    &&& forall|i: int| 0 <= i < p.outputs@.len() ==> #[trigger] previews_output(p.outputs@[i], reduced_outputs_of(tx)[i])
}

/// A preview shows every output as it is: for each output candidate of the transaction,
/// the preview at the same position carries the candidate's value, all of its tokens
/// (id and amount, in order), and the mainnet address of its script (or `unknown`); and
/// the preview lists the transaction's inputs by id, in order.
pub proof fn law_preview_shows_each_output(p: TxPreview, tx: ReducedTransaction, i: int)
    requires
        previews_tx(p, tx),
        0 <= i < reduced_outputs_of(tx).len(),
    ensures
        p.outputs@.len() == reduced_outputs_of(tx).len(),
        p.outputs@[i].value == candidate_value_of(reduced_outputs_of(tx)[i]),
        p.outputs@[i].tokens@.len() == candidate_tokens_of(reduced_outputs_of(tx)[i]).len(),
        forall|t: int| 0 <= t < p.outputs@[i].tokens@.len() ==> {
            &&& opt_text((#[trigger] p.outputs@[i].tokens@[t]).token_id) == candidate_tokens_of(reduced_outputs_of(tx)[i])[t].0
            &&& p.outputs@[i].tokens@[t].amount == candidate_tokens_of(reduced_outputs_of(tx)[i])[t].1
        },
        p.outputs@[i].address@ == (match tree_address(candidate_tree_of(reduced_outputs_of(tx)[i])) {
            Some(a) => address_text(a, true),
            None => "unknown"@,
        }),
        p.inputs@.len() == reduced_input_ids_of(tx).len(),
        forall|k: int| 0 <= k < p.inputs@.len()
            ==> opt_text(#[trigger] p.inputs@[k]) == box_id_json_text(reduced_input_ids_of(tx)[k]),
{
    assert(previews_output(p.outputs@[i], reduced_outputs_of(tx)[i]));
    let toks = p.outputs@[i].tokens@.map_values(|t: TokenPreview| (opt_text(t.token_id), t.amount));
    assert forall|t: int| 0 <= t < p.outputs@[i].tokens@.len() implies {
        &&& opt_text((#[trigger] p.outputs@[i].tokens@[t]).token_id) == candidate_tokens_of(reduced_outputs_of(tx)[i])[t].0
        &&& p.outputs@[i].tokens@[t].amount == candidate_tokens_of(reduced_outputs_of(tx)[i])[t].1
    } by {
        assert(toks[t] == (opt_text(p.outputs@[i].tokens@[t].token_id), p.outputs@[i].tokens@[t].amount));
    }
    let ins = p.inputs@.map_values(|s: Option<String>| opt_text(s));
    assert(ins.len() == p.inputs@.len());
    assert forall|k: int| 0 <= k < p.inputs@.len()
        implies opt_text(#[trigger] p.inputs@[k]) == box_id_json_text(reduced_input_ids_of(tx)[k]) by {
        assert(ins[k] == opt_text(p.inputs@[k]));
    }
}

/// Reads a reduced transaction given as base64 (in any of the four forms) and returns
/// what a wallet shows of it. It fails exactly when the text is no base64 or its bytes
/// are no reduced transaction, and says which.
pub fn parse_reduced_tx(reduced_tx_base64: &str) -> (r: Result<TxPreview, WalletError>)
    ensures
        r is Ok <==> reduced_tx_text_accepted(reduced_tx_base64@),
        decode_any_base64(reduced_tx_base64@) is None ==> (r matches Err(e) && e matches WalletError::Base64(_, None)),
        (decode_any_base64(reduced_tx_base64@) matches Some(b) && !reduced_tx_decodes(b)) ==> (r matches Err(e) && e is ParseReduced),
        r matches Ok(p) ==> previews_tx(p, reduced_tx_of(decode_any_base64(reduced_tx_base64@)->0)->0),
        r matches Ok(p) ==> ({
            let outs = reduced_outputs_of(reduced_tx_of(decode_any_base64(reduced_tx_base64@)->0)->0);
            &&& p.outputs@.len() == outs.len()
            &&& forall|i: int| 0 <= i < outs.len() ==> {
                &&& (#[trigger] p.outputs@[i]).value == candidate_value_of(outs[i])
                &&& p.outputs@[i].tokens@.map_values(|t: TokenPreview| (opt_text(t.token_id), t.amount))
                    == candidate_tokens_of(outs[i])
            }
        }),
{
    let bytes = match decode_base64_any(reduced_tx_base64) {
        Ok(b) => b,
        Err(e) => {
            return Err(WalletError::Base64(e, None));
        },
    };
    let tx = match reduced_from_bytes(&bytes) {
        Ok(t) => t,
        Err(e) => {
            return Err(WalletError::ParseReduced(e));
        },
    };
    let ids = reduced_input_ids(&tx);
    let mut inputs: Vec<Option<String>> = Vec::new();
    let mut i: usize = 0;
    while i < ids.len()
        invariant
            i <= ids@.len(),
            inputs@.len() == i,
            forall|k: int| 0 <= k < i ==> opt_text(#[trigger] inputs@[k]) == box_id_json_text(ids@[k]),
        decreases ids@.len() - i,
    {
        inputs.push(box_id_text(&ids[i]));
        i = i + 1;
    }
    let candidates = reduced_outputs(&tx);
    let mut outputs: Vec<OutputPreview> = Vec::new();
    let mut j: usize = 0;
    while j < candidates.len()
        invariant
            j <= candidates@.len(),
            outputs@.len() == j,
            forall|k: int| 0 <= k < j ==> #[trigger] previews_output(outputs@[k], candidates@[k]),
        decreases candidates@.len() - j,
    {
        let c = &candidates[j];
        let tree = candidate_tree(c);
        let address = match address_of_tree(&tree) {
            Some(a) => Some(encode_address(&a, true)),
            None => None,
        };
        let raw_tokens = candidate_tokens(c);
        let preview = output_preview(address, candidate_value(c), &raw_tokens);
        proof {
            reveal_strlit("unknown");
            assert(preview.tokens@.map_values(|t: TokenPreview| (opt_text(t.token_id), t.amount))
                =~= raw_tokens@.map_values(|t: (Option<String>, u64)| token_view(t)));
        }
        outputs.push(preview);
        j = j + 1;
    }
    let p = TxPreview { inputs, outputs };
    assert(p.inputs@.map_values(|s: Option<String>| opt_text(s)) =~= ids@.map_values(|id| box_id_json_text(id)));
    assert forall|i: int| 0 <= i < candidates@.len() implies {
        &&& (#[trigger] p.outputs@[i]).value == candidate_value_of(candidates@[i])
        &&& p.outputs@[i].tokens@.map_values(|t: TokenPreview| (opt_text(t.token_id), t.amount))
            == candidate_tokens_of(candidates@[i])
    } by {
        assert(previews_output(p.outputs@[i], candidates@[i]));
    }
    Ok(p)
}

/// Signs a reduced transaction given as base64 (in any of the four forms) with the
/// wallet's first `key_count(derivation_count)` EIP-3 keys: the signed transaction as
/// JSON. The text is read before the keys are derived; a text that is no base64 fails
/// with its byte length in the message.
pub fn sign_reduced_tx(
    reduced_tx_base64: &str,
    mnemonic: &str,
    mnemonic_pass: &str,
    derivation_count: i32,
) -> (r: Result<String, WalletError>)
    ensures
        decode_any_base64(reduced_tx_base64@) is None ==> (r matches Err(e)
            && e matches WalletError::Base64(_, Some(n)) && n == reduced_tx_base64.spec_bytes().len() as usize),
        (decode_any_base64(reduced_tx_base64@) matches Some(b) && !reduced_tx_decodes(b)) ==> (r matches Err(e) && e is ParseReduced),
        r is Ok ==> reduced_tx_text_accepted(reduced_tx_base64@),
        r matches Err(e) ==> (e is Base64 && decode_any_base64(reduced_tx_base64@) is None)
            || (e is ParseReduced && (decode_any_base64(reduced_tx_base64@) matches Some(b) && !reduced_tx_decodes(b)))
            || (reduced_tx_text_accepted(reduced_tx_base64@)
                && (key_error_explained(e, mnemonic@, mnemonic_pass@, derivation_count)
                    || ((e is SignReduced || e is SerializeJson)
                        && wallet_keys_derive(mnemonic@, mnemonic_pass@, derivation_count)))),
        r is Ok ==> wallet_keys_derive(mnemonic@, mnemonic_pass@, derivation_count),
        (reduced_tx_text_accepted(reduced_tx_base64@) && !wallet_keys_derive(mnemonic@, mnemonic_pass@, derivation_count))
            ==> (r matches Err(e) && key_error_explained(e, mnemonic@, mnemonic_pass@, derivation_count)),
        r matches Ok(text) ==> exists|t: Transaction| #[trigger] transaction_json_text(t) == Some(text@)
            && signed_input_ids(t) == reduced_input_ids_of(reduced_tx_of(decode_any_base64(reduced_tx_base64@)->0)->0)
            && signed_outputs(t) == reduced_outputs_of(reduced_tx_of(decode_any_base64(reduced_tx_base64@)->0)->0),
{
    let bytes = match decode_base64_any(reduced_tx_base64) {
        Ok(b) => b,
        Err(e) => {
            return Err(WalletError::Base64(e, Some(reduced_tx_base64.len())));
        },
    };
    let tx = match reduced_from_bytes(&bytes) {
        Ok(t) => t,
        Err(e) => {
            return Err(WalletError::ParseReduced(e));
        },
    };
    let wallet = signing_wallet(mnemonic, mnemonic_pass, derivation_count)?;
    let signed = match wallet_sign_reduced(&wallet, tx) {
        Ok(s) => s,
        Err(e) => {
            return Err(WalletError::SignReduced(e));
        },
    };
    match transaction_json(&signed) {
        Ok(s) => Ok(s),
        Err(e) => Err(WalletError::SerializeJson(e)),
    }
}

} // verus!
