use vstd::prelude::*;

use crate::error::Error;

verus! {

/// The row count carried in a packed window-size word: its upper 32 bits.
pub open spec fn packed_rows(raw: u64) -> u64 {
    raw >> 32
}

/// The column count carried in a packed window-size word: its lower 32 bits.
pub open spec fn packed_cols(raw: u64) -> u64 {
    raw & 0xFFFF_FFFF
}

/// The packed window-size word that carries the given row and column counts.
pub open spec fn pack_window_size(rows: u64, cols: u64) -> u64 {
    (rows << 32) | cols
}

/// Decode the packed word returned by the screen-size system call into
/// (rows, columns). Either dimension reading zero means the window size is
/// unavailable and is reported as `InvalidWindowSize`, never as a zero pair.
pub fn get_window_size(raw: u64) -> (r: Result<(usize, usize), Error>)
    ensures
        r is Err <==> packed_rows(raw) == 0 || packed_cols(raw) == 0,
        r matches Err(e) ==> e == Error::InvalidWindowSize,
        r matches Ok(ws) ==> {
            &&& ws.0 == packed_rows(raw)
            &&& ws.1 == packed_cols(raw)
            &&& ws.0 > 0
            &&& ws.1 > 0
        },
{
    let rows_raw: u64 = raw >> 32;
    let cols_raw: u64 = raw & 0xFFFF_FFFF;
    proof {
        assert(raw >> 32 <= 0xFFFF_FFFFu64) by (bit_vector);
        assert(raw & 0xFFFF_FFFF <= 0xFFFF_FFFFu64) by (bit_vector);
    }
    let rows: usize = rows_raw as usize;
    let cols: usize = cols_raw as usize;
    if rows == 0 || cols == 0 {
        Err(Error::InvalidWindowSize)
    } else {
        Ok((rows, cols))
    }
}

/// Packing any row and column counts from [1, 65535] and decoding the packed
/// word reproduces exactly the pair that was packed.
pub proof fn lemma_pack_round_trip(rows: u64, cols: u64)
    by (bit_vector)
    requires
        1 <= rows <= 0xFFFF,
        1 <= cols <= 0xFFFF,
    ensures
        packed_rows(pack_window_size(rows, cols)) == rows,
        packed_cols(pack_window_size(rows, cols)) == cols,
{
}

} // verus!
