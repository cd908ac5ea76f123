//! Resolving a compact channel identifier to the output it names.

use vstd::prelude::*;
use crate::gateway::{body_of, fetch_outcome, transaction_from_response, FetchError};
use crate::scid::{decode_scid, output_index_of};
use crate::transaction::{Transaction, TxOutput};

verus! {

/// Why an identifier could not be resolved to an output.
#[derive(Debug, Clone, Copy, PartialEq, Eq, Structural)]
pub enum ResolveError {
    /// No usable transaction could be had for the identifier's coordinates.
    UnknownChain,
    /// The transaction has no output at the identifier's output index.
    UnknownOutput,
}

/// The output at `output_index` of a fetched transaction.
pub open spec fn output_at(
    fetched: Result<Seq<(u64, Seq<u8>)>, FetchError>,
    output_index: int,
) -> Result<(u64, Seq<u8>), ResolveError> {
    match fetched {
        Err(_) => Err(ResolveError::UnknownChain),
        Ok(outputs) => if 0 <= output_index < outputs.len() {
            Ok(outputs[output_index])
        } else {
            Err(ResolveError::UnknownOutput)
        },
    }
}

/// What an identifier resolves to, given the gateway's response to the lookup
/// of its block height and transaction position.
pub open spec fn resolution(short_channel_id: int, response: Option<Seq<u8>>) -> Result<
    (u64, Seq<u8>),
    ResolveError,
> {
    output_at(fetch_outcome(response), output_index_of(short_channel_id))
}

/// A copy of the output at `output_index` of a fetched transaction. Any fetch
/// failure becomes `UnknownChain`; an index past the last output,
/// `UnknownOutput`.
pub fn select_output(fetched: &Result<Transaction, FetchError>, output_index: u16) -> (r: Result<
    TxOutput,
    ResolveError,
>)
    ensures
        fetched is Err ==> r == Err::<TxOutput, ResolveError>(ResolveError::UnknownChain),
        fetched is Ok && output_index >= fetched->Ok_0@.len() ==> r == Err::<
            TxOutput,
            ResolveError,
        >(ResolveError::UnknownOutput),
        fetched is Ok && output_index < fetched->Ok_0@.len() ==> r is Ok && r->Ok_0@
            == fetched->Ok_0@[output_index as int],
{
    match fetched {
        Err(_) => Err(ResolveError::UnknownChain),
        Ok(tx) => {
            let index = output_index as usize;
            if index < tx.output_count() {
                Ok(tx.outputs[index].copy())
            } else {
                Err(ResolveError::UnknownOutput)
            }
        },
    }
}

/// Resolves an identifier, given the gateway's response to the lookup of its
/// block height and transaction position (`None` where the gateway could not
/// be reached).
pub fn resolve_response(short_channel_id: u64, response: Option<Vec<u8>>) -> (r: Result<
    TxOutput,
    ResolveError,
>)
    ensures
        match r {
            Ok(o) => resolution(short_channel_id as int, body_of(response)) == Ok::<
                (u64, Seq<u8>),
                ResolveError,
            >(o@),
            Err(e) => resolution(short_channel_id as int, body_of(response)) == Err::<
                (u64, Seq<u8>),
                ResolveError,
            >(e),
        },
{
    let (_, _, output_index) = decode_scid(short_channel_id);
    let fetched = transaction_from_response(response);
    select_output(&fetched, output_index)
}

} // verus!
