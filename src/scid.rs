//! Packing and unpacking of compact channel identifiers.
//!
//! From the most significant bit down, an identifier holds the block height
//! (24 bits), the transaction's position within the block (24 bits) and the
//! output's index within the transaction (16 bits).

use vstd::prelude::*;

verus! {

/// One more than the largest block height or transaction position that fits.
pub const COORDINATE_LIMIT: u32 = 0x100_0000;

/// The identifier that packs the three coordinates.
pub open spec fn scid_value(block_height: int, tx_index: int, output_index: int) -> int {
    block_height * 0x100_0000_0000 + tx_index * 0x1_0000 + output_index
}

/// The block height held in the top 24 bits of an identifier.
pub open spec fn block_height_of(id: int) -> int {
    id / 0x100_0000_0000
}

/// The transaction position held in bits 16 to 39 of an identifier.
pub open spec fn tx_index_of(id: int) -> int {
    (id / 0x1_0000) % 0x100_0000
}

/// The output index held in the low 16 bits of an identifier.
pub open spec fn output_index_of(id: int) -> int {
    id % 0x1_0000
}

/// Packs a block height, a transaction position and an output index into an
/// identifier.
pub fn encode_scid(block_height: u32, tx_index: u32, output_index: u16) -> (r: u64)
    requires
        block_height < COORDINATE_LIMIT,
        tx_index < COORDINATE_LIMIT,
    ensures
        r as int == scid_value(block_height as int, tx_index as int, output_index as int),
{
    let h = block_height as u64;
    let t = tx_index as u64;
    let o = output_index as u64;
    assert(((h << 40u64) | (t << 16u64) | o) == h * 0x100_0000_0000 + t * 0x1_0000 + o)
        by (bit_vector)
        requires
            h < 0x100_0000,
            t < 0x100_0000,
            o < 0x1_0000,
    ;
    (h << 40u64) | (t << 16u64) | o
}

/// Splits an identifier into its block height, transaction position and output
/// index.
pub fn decode_scid(short_channel_id: u64) -> (r: (u32, u32, u16))
    ensures
        r.0 as int == block_height_of(short_channel_id as int),
        r.1 as int == tx_index_of(short_channel_id as int),
        r.2 as int == output_index_of(short_channel_id as int),
{
    let id = short_channel_id;
    assert(id >> 40u64 == id / 0x100_0000_0000 && id >> 40u64 < 0x100_0000) by (bit_vector);
    assert((id >> 16u64) & 0xff_ffff == (id / 0x1_0000) % 0x100_0000) by (bit_vector);
    assert(id & 0xffff == id % 0x1_0000) by (bit_vector);
    let block_height = (id >> 40u64) as u32;
    let tx_index = ((id >> 16u64) & 0xff_ffff) as u32;
    let output_index = (id & 0xffff) as u16;
    (block_height, tx_index, output_index)
}

/// Decoding undoes encoding: every block height and transaction position below
/// 2^24 and every 16-bit output index come back unchanged from the identifier
/// that packs them.
pub proof fn lemma_decode_encode(block_height: u32, tx_index: u32, output_index: u16)
    requires
        block_height < COORDINATE_LIMIT,
        tx_index < COORDINATE_LIMIT,
    ensures
        ({
            let id = scid_value(block_height as int, tx_index as int, output_index as int);
            &&& 0 <= id <= u64::MAX
            &&& block_height_of(id) == block_height as int
            &&& tx_index_of(id) == tx_index as int
            &&& output_index_of(id) == output_index as int
        }),
{
    let h = block_height as int;
    let t = tx_index as int;
    let o = output_index as int;
    let low = t * 0x1_0000 + o;
    assert(0 <= low < 0x100_0000_0000) by (nonlinear_arith)
        requires
            0 <= t < 0x100_0000,
            0 <= o < 0x1_0000,
            low == t * 0x1_0000 + o,
    ;
    assert(h * 0x100_0000_0000 + low == (h * 0x100_0000 + t) * 0x1_0000 + o)
        by (nonlinear_arith)
        requires
            low == t * 0x1_0000 + o,
    ;
    assert(0 <= h * 0x100_0000_0000 + low <= 0xffff_ffff_ffff_ffff) by (nonlinear_arith)
        requires
            0 <= h < 0x100_0000,
            0 <= low < 0x100_0000_0000,
    ;
    vstd::arithmetic::div_mod::lemma_fundamental_div_mod_converse(
        h * 0x100_0000_0000 + low,
        0x100_0000_0000,
        h,
        low,
    );
    vstd::arithmetic::div_mod::lemma_fundamental_div_mod_converse(
        h * 0x100_0000_0000 + low,
        0x1_0000,
        h * 0x100_0000 + t,
        o,
    );
    vstd::arithmetic::div_mod::lemma_fundamental_div_mod_converse(
        h * 0x100_0000 + t,
        0x100_0000,
        h,
        t,
    );
}

} // verus!
