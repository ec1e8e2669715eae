//! Why a wallet operation failed, and the message it reports.
use vstd::prelude::*;
use vstd::string::*;

use crate::text::{decimal, int_parse_error_text, write_decimal, IntParseError};

verus! {

/// The step of a wallet operation that failed. A `String` payload is the cause that the
/// outside library reported.
#[derive(Debug)]
pub enum WalletError {
    /// The seed gives no master key.
    DeriveMaster(String),
    /// An address derivation path does not parse.
    PathParse(String),
    /// The child key of an address index cannot be derived.
    Derive(String),
    /// The derivation path of key number `.0` does not parse.
    PathParseAt(u32, String),
    /// Key number `.0` cannot be derived.
    DeriveAt(u32, String),
    /// The input boxes are not a JSON array; `.0` selects the signing wording.
    InputList(bool, String),
    /// An input box does not read as a box.
    InputBox(String),
    /// The data-input boxes are not a JSON array.
    DataInputList(String),
    /// A data-input box does not read as a box.
    DataInputBox(String),
    /// The context extensions are not a JSON object of objects of strings.
    ContextExtensions(String),
    /// The output candidates are not a JSON array; `.0` selects the signing wording.
    OutputList(bool, String),
    /// An output candidate does not read as one.
    Candidate(String),
    /// The block headers are not a JSON array.
    Headers(String),
    /// Fewer than ten block headers were given.
    TooFewHeaders(usize),
    /// A block header does not read as one.
    Header(String),
    /// The ten headers do not make the state context's array.
    HeadersArray,
    /// The change address decodes on neither network.
    ChangeAddress(String),
    /// The fee lies outside the box value bounds.
    Fee(String),
    /// The input boxes do not make a selection (none, or more than `i16::MAX`).
    NoInputs,
    /// The values of the input boxes, or of the outputs with the fee, sum past `u64::MAX`.
    ValueOverflow,
    /// A context-extension key is not an input position.
    ExtIndex(IntParseError),
    /// The values of the context extension of input `.0` do not make one.
    ExtValues(usize, String),
    /// The transaction builder refuses the transaction.
    Build(String),
    /// The boxes do not match the unsigned transaction.
    TxContext(String),
    /// Reducing the transaction failed.
    Reduce(String),
    /// Serializing the reduced transaction failed.
    Serialize(String),
    /// Signing the transaction failed.
    Sign(String),
    /// Signing the reduced transaction failed.
    SignReduced(String),
    /// Rendering the signed transaction as JSON failed.
    SerializeJson(String),
    /// The text is base64 in none of the four forms; the cause is the last decoder's,
    /// and the byte length of the text is reported when `.1` holds it.
    Base64(String, Option<usize>),
    /// The decoded bytes are not a reduced transaction.
    ParseReduced(String),
}

/// The message that an error reports.
pub open spec fn error_message(e: WalletError) -> Seq<char> {
    match e {
        WalletError::DeriveMaster(c) => "derive_master: "@ + c@,
        WalletError::PathParse(c) => "path parse: "@ + c@,
        WalletError::Derive(c) => "derive: "@ + c@,
        WalletError::PathParseAt(i, c) => "path parse idx "@ + decimal(i as nat) + ": "@ + c@,
        WalletError::DeriveAt(i, c) => "derive idx "@ + decimal(i as nat) + ": "@ + c@,
        WalletError::InputList(signing, c) => (if signing { "parse input: "@ } else { "parse input boxes json: "@ }) + c@,
        WalletError::InputBox(c) => "parse box: "@ + c@,
        WalletError::DataInputList(c) => "parse data input boxes json: "@ + c@,
        WalletError::DataInputBox(c) => "parse data box: "@ + c@,
        WalletError::ContextExtensions(c) => "parse context extensions: "@ + c@,
        WalletError::OutputList(signing, c) => (if signing { "parse output: "@ } else { "parse output candidates: "@ }) + c@,
        WalletError::Candidate(c) => "parse candidate: "@ + c@,
        WalletError::Headers(c) => "parse headers: "@ + c@,
        WalletError::TooFewHeaders(n) => "Need 10 headers, got "@ + decimal(n as nat),
        WalletError::Header(c) => "parse header: "@ + c@,
        WalletError::HeadersArray => "headers array conversion"@,
        WalletError::ChangeAddress(c) => "change address: "@ + c@,
        WalletError::Fee(c) => "fee: "@ + c@,
        WalletError::NoInputs => "input boxes cannot be empty"@,
        WalletError::ValueOverflow => "box values overflow u64"@,
        WalletError::ExtIndex(pe) => "ext index parse: "@ + int_parse_error_text(pe),
        WalletError::ExtValues(i, c) => "parse context extension for input "@ + decimal(i as nat) + ": "@ + c@,
        WalletError::Build(c) => "tx_builder.build: "@ + c@,
        WalletError::TxContext(c) => "tx context: "@ + c@,
        WalletError::Reduce(c) => "reduce_tx: "@ + c@,
        WalletError::Serialize(c) => "serialize: "@ + c@,
        WalletError::Sign(c) => "sign_transaction: "@ + c@,
        WalletError::SignReduced(c) => "sign_reduced_transaction: "@ + c@,
        WalletError::SerializeJson(c) => "serialize json: "@ + c@,
        WalletError::Base64(c, None) => "base64 decode: "@ + c@,
        WalletError::Base64(c, Some(n)) => "base64 decode: "@ + c@ + " (input len="@ + decimal(n as nat) + ")"@,
        WalletError::ParseReduced(c) => "parse ReducedTransaction: "@ + c@,
    }
}

fn with_cause(head: &str, cause: &String) -> (s: String)
    ensures
        s@ == head@ + cause@,
{
    let mut s = String::from_str(head);
    s.append(cause.as_str());
    s
}

fn with_index_and_cause(head: &str, i: u64, cause: &String) -> (s: String)
    ensures
        s@ == head@ + decimal(i as nat) + ": "@ + cause@,
{
    let mut s = String::from_str(head);
    write_decimal(&mut s, i);
    s.append(": ");
    s.append(cause.as_str());
    s
}

impl WalletError {
    /// The message that this error reports.
    pub fn message(&self) -> (s: String)
        ensures
            s@ == error_message(*self),
    {
        match self {
            WalletError::DeriveMaster(c) => with_cause("derive_master: ", c),
            WalletError::PathParse(c) => with_cause("path parse: ", c),
            WalletError::Derive(c) => with_cause("derive: ", c),
            WalletError::PathParseAt(i, c) => with_index_and_cause("path parse idx ", *i as u64, c),
            WalletError::DeriveAt(i, c) => with_index_and_cause("derive idx ", *i as u64, c),
            WalletError::InputList(signing, c) => if *signing {
                with_cause("parse input: ", c)
            } else {
                with_cause("parse input boxes json: ", c)
            },
            WalletError::InputBox(c) => with_cause("parse box: ", c),
            WalletError::DataInputList(c) => with_cause("parse data input boxes json: ", c),
            WalletError::DataInputBox(c) => with_cause("parse data box: ", c),
            WalletError::ContextExtensions(c) => with_cause("parse context extensions: ", c),
            WalletError::OutputList(signing, c) => if *signing {
                with_cause("parse output: ", c)
            } else {
                with_cause("parse output candidates: ", c)
            },
            WalletError::Candidate(c) => with_cause("parse candidate: ", c),
            WalletError::Headers(c) => with_cause("parse headers: ", c),
            WalletError::TooFewHeaders(n) => {
                let mut s = String::from_str("Need 10 headers, got ");
                write_decimal(&mut s, *n as u64);
                s
            },
            WalletError::Header(c) => with_cause("parse header: ", c),
            WalletError::HeadersArray => String::from_str("headers array conversion"),
            WalletError::ChangeAddress(c) => with_cause("change address: ", c),
            WalletError::Fee(c) => with_cause("fee: ", c),
            WalletError::NoInputs => String::from_str("input boxes cannot be empty"),
            WalletError::ValueOverflow => String::from_str("box values overflow u64"),
            WalletError::ExtIndex(pe) => {
                let cause = pe.message();
                with_cause("ext index parse: ", &cause)
            },
            WalletError::ExtValues(i, c) => with_index_and_cause("parse context extension for input ", *i as u64, c),
            WalletError::Build(c) => with_cause("tx_builder.build: ", c),
            WalletError::TxContext(c) => with_cause("tx context: ", c),
            WalletError::Reduce(c) => with_cause("reduce_tx: ", c),
            WalletError::Serialize(c) => with_cause("serialize: ", c),
            WalletError::Sign(c) => with_cause("sign_transaction: ", c),
            WalletError::SignReduced(c) => with_cause("sign_reduced_transaction: ", c),
            WalletError::SerializeJson(c) => with_cause("serialize json: ", c),
            WalletError::Base64(c, len) => {
                let mut s = with_cause("base64 decode: ", c);
                match len {
                    None => {},
                    Some(n) => {
                        s.append(" (input len=");
                        write_decimal(&mut s, *n as u64);
                        s.append(")");
                    },
                }
                s
            },
            WalletError::ParseReduced(c) => with_cause("parse ReducedTransaction: ", c),
        }
    }
}

} // verus!
