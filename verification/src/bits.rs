//! Mirroring of one-bit-per-dot bitmap rows.
use vstd::prelude::*;

verus! {

/// The byte `b` read back to front: bit `k` of the result is bit `7 - k` of `b`.
pub open spec fn mirrored(b: u8) -> u8 {
    ((b & 0x01) << 7u8) | ((b & 0x02) << 5u8) | ((b & 0x04) << 3u8) | ((b & 0x08) << 1u8)
        | ((b & 0x10) >> 1u8) | ((b & 0x20) >> 3u8) | ((b & 0x40) >> 5u8) | ((b & 0x80) >> 7u8)
}

/// Bit `k` (counted from the least significant) of `b`.
pub open spec fn bit(b: u8, k: u8) -> bool {
    (b >> k) & 1 == 1
}

proof fn lemma_mirror_step(b: u8, i: u8)
    by (bit_vector)
    requires
        i < 8,
    ensures
        (mirrored(b) >> (8 - i) as u8) < 128,
        ((mirrored(b) >> (8 - i) as u8) << 1u8) + ((b >> i) & 1) == mirrored(b) >> (7 - i) as u8,
        ((b >> i) >> 1u8) == b >> (i + 1) as u8,
{
}

/// Mirrors one bitmap row: `11010001` becomes `10001011`.
pub fn flipbits(b: u8) -> (r: u8)
    ensures
        r == mirrored(b),
{
    let mut bcontain = b;
    let mut result: u8 = 0;
    assert(mirrored(b) >> 8u8 == 0 && b >> 0u8 == b) by (bit_vector);
    for i in 0..8u8
        invariant
            result == mirrored(b) >> (8 - i) as u8,
            bcontain == b >> i,
    {
        proof {
            lemma_mirror_step(b, i);
        }
        result = result << 1u8;
        if bcontain & 1 == 1 {
            result = result + 1;
        }
        assert(((bcontain & 1 == 1) ==> (bcontain & 1) == 1u8) && ((bcontain & 1 != 1) ==> (bcontain & 1) == 0u8)) by (bit_vector);
        bcontain = bcontain >> 1u8;
    }
    assert(mirrored(b) >> 0u8 == mirrored(b)) by (bit_vector);
    result
}

/// Mirroring a row twice gives the row back.
pub proof fn lemma_mirrored_involution(b: u8)
    ensures
        mirrored(mirrored(b)) == b,
{
    assert(mirrored(mirrored(b)) == b) by (bit_vector);
}

/// Mirroring moves every dot to the opposite column.
pub proof fn lemma_mirrored_bits(b: u8, k: u8)
    requires
        k < 8,
    ensures
        bit(mirrored(b), k) == bit(b, (7 - k) as u8),
{
    assert(k < 8 ==> (((mirrored(b) >> k) & 1 == 1) == ((b >> (7 - k) as u8) & 1 == 1))) by (bit_vector);
}

/// Every row of a bitmap mirrored.
pub open spec fn mirrored_rows(rows: Seq<u8>) -> Seq<u8> {
    rows.map_values(|b: u8| mirrored(b))
}

/// Mirrors a whole sixteen-row bitmap, row by row.
pub fn flip(ua: [u8; 16]) -> (r: [u8; 16])
    ensures
        r@ == mirrored_rows(ua@),
{
    let mut result: [u8; 16] = [0; 16];
    let mut cnt: usize = 0;
    while cnt < 16
        invariant
            0 <= cnt <= 16,
            forall|i: int| 0 <= i < cnt ==> #[trigger] result[i] == mirrored(ua[i]),
        decreases 16 - cnt,
    {
        result[cnt] = flipbits(ua[cnt]);
        cnt += 1;
    }
    assert(result@ =~= mirrored_rows(ua@));
    result
}

/// Mirroring a bitmap twice gives the bitmap back.
pub proof fn lemma_flip_involution(rows: Seq<u8>)
    ensures
        mirrored_rows(mirrored_rows(rows)) == rows,
{
    assert forall|i: int| 0 <= i < rows.len() implies #[trigger] mirrored_rows(
        mirrored_rows(rows),
    )[i] == rows[i] by {
        lemma_mirrored_involution(rows[i]);
    }
    assert(mirrored_rows(mirrored_rows(rows)) =~= rows);
}

} // verus!
