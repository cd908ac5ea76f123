//! Turning a data gateway's answer into a transaction.
//!
//! The gateway answers a transaction lookup with the transaction's consensus
//! encoding written as hex text. The text is hex-decoded, then the bytes are
//! decoded as a transaction.

use vstd::prelude::*;
use crate::transaction::{Transaction, TxOutput};

verus! {

#[verifier::external_type_specification]
#[verifier::external_body]
pub struct ExFromHexError(hex::FromHexError);

#[verifier::external_type_specification]
#[verifier::external_body]
pub struct ExConsensusError(bitcoin::consensus::encode::Error);

/// Why a transaction could not be had from the gateway.
#[derive(Debug, Clone, Copy, PartialEq, Eq, Structural)]
pub enum FetchError {
    /// The gateway could not be reached or did not answer with a body.
    Unreachable,
    /// The body is not hex text, or its bytes are not a transaction.
    Malformed,
}

/// The character of a decimal digit.
pub open spec fn digit_char(d: int) -> char {
    if d == 0 {
        '0'
    } else if d == 1 {
        '1'
    } else if d == 2 {
        '2'
    } else if d == 3 {
        '3'
    } else if d == 4 {
        '4'
    } else if d == 5 {
        '5'
    } else if d == 6 {
        '6'
    } else if d == 7 {
        '7'
    } else if d == 8 {
        '8'
    } else {
        '9'
    }
}

/// A number written in decimal, without leading zeros.
pub open spec fn decimal(n: nat) -> Seq<char>
    decreases n,
{
    if n < 10 {
        seq![digit_char(n as int)]
    } else {
        decimal(n / 10) + seq![digit_char((n % 10) as int)]
    }
}

/// The gateway path that looks up the transaction at a block height and a
/// position within the block.
pub open spec fn lookup_path_spec(block_height: nat, tx_index: nat) -> Seq<char> {
    seq!['g', 'e', 't', 'T', 'r', 'a', 'n', 's', 'a', 'c', 't', 'i', 'o', 'n', '/']
        + decimal(block_height) + seq!['/'] + decimal(tx_index)
}

fn digit_str(d: u32) -> (r: &'static str)
    requires
        d < 10,
    ensures
        r@ == seq![digit_char(d as int)],
{
    proof {
        reveal_strlit("0");
        reveal_strlit("1");
        reveal_strlit("2");
        reveal_strlit("3");
        reveal_strlit("4");
        reveal_strlit("5");
        reveal_strlit("6");
        reveal_strlit("7");
        reveal_strlit("8");
        reveal_strlit("9");
    }
    match d {
        0 => "0",
        1 => "1",
        2 => "2",
        3 => "3",
        4 => "4",
        5 => "5",
        6 => "6",
        7 => "7",
        8 => "8",
        _ => "9",
    }
}

fn append_decimal(text: &mut String, n: u32)
    ensures
        final(text)@ == old(text)@ + decimal(n as nat),
    decreases n,
{
    if n >= 10 {
        append_decimal(text, n / 10);
    }
    text.append(digit_str(n % 10));
    assert(final(text)@ =~= old(text)@ + decimal(n as nat));
}

/// The gateway path that looks up the transaction at `block_height`, position
/// `tx_index`: `getTransaction/{block_height}/{tx_index}`.
pub fn lookup_path(block_height: u32, tx_index: u32) -> (r: String)
    ensures
        r@ == lookup_path_spec(block_height as nat, tx_index as nat),
{
    let mut path = String::new();
    path.append("getTransaction/");
    append_decimal(&mut path, block_height);
    path.append("/");
    append_decimal(&mut path, tx_index);
    proof {
        reveal_strlit("getTransaction/");
        reveal_strlit("/");
    }
    assert(path@ =~= lookup_path_spec(block_height as nat, tx_index as nat));
    path
}

/// The value of an ASCII hex digit of either case.
pub open spec fn hex_digit_value(c: u8) -> Option<int> {
    if 48 <= c <= 57 {
        Some(c - 48)
    } else if 97 <= c <= 102 {
        Some(c - 97 + 10)
    } else if 65 <= c <= 70 {
        Some(c - 65 + 10)
    } else {
        None
    }
}

/// Text of an even number of hex digits.
pub open spec fn is_hex_text(text: Seq<u8>) -> bool {
    &&& text.len() % 2 == 0
    &&& forall|i: int| 0 <= i < text.len() ==> (#[trigger] hex_digit_value(text[i])) is Some
}

/// The bytes that hex text spells, two digits each, high digit first.
pub open spec fn hex_bytes(text: Seq<u8>) -> Seq<u8> {
    Seq::new(
        (text.len() / 2) as nat,
        |i: int|
            (16 * hex_digit_value(text[2 * i])->0 + hex_digit_value(text[2 * i + 1])->0) as u8,
    )
}

/// Relies on hex::decode: it fails on text of odd length or on a byte that is
/// no hex digit, and otherwise turns each pair of digits into one byte.
#[verifier::external_body]
fn decode_hex(text: &Vec<u8>) -> (r: Result<Vec<u8>, hex::FromHexError>)
    ensures
        r is Ok <==> is_hex_text(text@),
        r is Ok ==> r->Ok_0@ == hex_bytes(text@),
{
    hex::decode(text)
}

/// The outputs of the transaction whose consensus encoding is exactly
/// `bytes`, or `None` where `bytes` encode no transaction.
pub uninterp spec fn consensus_outputs(bytes: Seq<u8>) -> Option<Seq<(u64, Seq<u8>)>>;

/// Relies on bitcoin::consensus::deserialize for bitcoin::Transaction: it
/// decodes a transaction that takes up the whole of `bytes`, or fails. Each
/// output is taken over with its amount and its script's bytes.
#[verifier::external_body]
fn deserialize_transaction(bytes: &Vec<u8>) -> (r: Result<
    Transaction,
    bitcoin::consensus::encode::Error,
>)
    ensures
        match r {
            Ok(tx) => consensus_outputs(bytes@) == Some(tx@),
            Err(_) => consensus_outputs(bytes@) is None,
        },
{
    let tx: bitcoin::Transaction = bitcoin::consensus::deserialize(bytes.as_slice())?;
    let outputs = tx.output.into_iter().map(
        |o| TxOutput { value: o.value, script_pubkey: o.script_pubkey.into_bytes() },
    ).collect();
    Ok(Transaction { outputs })
}

/// The outputs of the transaction that a gateway body holds, or `None` where
/// the body is not hex text or its bytes are no transaction.
pub open spec fn body_outputs(body: Seq<u8>) -> Option<Seq<(u64, Seq<u8>)>> {
    if is_hex_text(body) {
        consensus_outputs(hex_bytes(body))
    } else {
        None
    }
}

/// What a lookup comes to: `None` where the gateway gave no body.
pub open spec fn fetch_outcome(response: Option<Seq<u8>>) -> Result<
    Seq<(u64, Seq<u8>)>,
    FetchError,
> {
    match response {
        None => Err(FetchError::Unreachable),
        Some(body) => match body_outputs(body) {
            Some(outputs) => Ok(outputs),
            None => Err(FetchError::Malformed),
        },
    }
}

/// Decodes a gateway body: hex text holding a transaction's consensus
/// encoding. Bytes that are not hex digits, UTF-8 or not, make it `Malformed`.
pub fn parse_transaction(body: &Vec<u8>) -> (r: Result<Transaction, FetchError>)
    ensures
        match r {
            Ok(tx) => body_outputs(body@) == Some(tx@),
            Err(e) => e == FetchError::Malformed && body_outputs(body@) is None,
        },
        !is_hex_text(body@) ==> r == Err::<Transaction, FetchError>(FetchError::Malformed),
{
    let bytes = match decode_hex(body) {
        Ok(bytes) => bytes,
        Err(_) => {
            return Err(FetchError::Malformed);
        },
    };
    match deserialize_transaction(&bytes) {
        Ok(tx) => Ok(tx),
        Err(_) => Err(FetchError::Malformed),
    }
}

/// The body that a lookup's response holds, if any.
pub open spec fn body_of(response: Option<Vec<u8>>) -> Option<Seq<u8>> {
    match response {
        Some(body) => Some(body@),
        None => None,
    }
}

/// The transaction of a lookup, given the gateway's body, or `None` where the
/// gateway could not be reached.
pub fn transaction_from_response(response: Option<Vec<u8>>) -> (r: Result<Transaction, FetchError>)
    ensures
        match r {
            Ok(tx) => fetch_outcome(body_of(response)) == Ok::<
                Seq<(u64, Seq<u8>)>,
                FetchError,
            >(tx@),
            Err(e) => fetch_outcome(body_of(response)) == Err::<
                Seq<(u64, Seq<u8>)>,
                FetchError,
            >(e),
        },
{
    match response {
        None => Err(FetchError::Unreachable),
        Some(body) => parse_transaction(&body),
    }
}

} // verus!
