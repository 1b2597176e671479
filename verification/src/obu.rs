//! AV1 OBU (open bitstream unit) helpers for the container muxer: strip a
//! leading temporal delimiter and find the sequence-header OBU that the
//! `av1C` box must carry.

use vstd::prelude::*;
use vstd::slice::slice_subrange;

verus! {

/// The temporal-delimiter OBU with a zero size field.
pub open spec fn starts_with_delimiter(data: Seq<u8>) -> bool {
    data.len() >= 2 && data[0] == 0x12 && data[1] == 0x00
}

/// Drop a leading temporal-delimiter OBU (`12 00`), if present.
pub fn without_delimiter(data: &[u8]) -> (r: &[u8])
    ensures
        starts_with_delimiter(data@) ==> r@ == data@.subrange(2, data@.len() as int),
        !starts_with_delimiter(data@) ==> r@ == data@,
{
    if data.len() >= 2 && data[0] == 0x12 && data[1] == 0x00 {
        slice_subrange(data, 2, data.len())
    } else {
        data
    }
}

/// `128^i`.
pub open spec fn pow128(i: nat) -> nat
    decreases i,
{
    if i == 0 { 1 } else { 128 * pow128((i - 1) as nat) }
}

/// The LEB128 field starting at `pos`, continued from its `i`-th byte with
/// `acc` accumulated so far: `Some((value, length))`, or `None` when the
/// data ends first or eight bytes pass without a terminating byte.
pub open spec fn leb128_from(data: Seq<u8>, pos: int, i: nat, acc: nat) -> Option<(nat, nat)>
    decreases 8 - i,
{
    if i >= 8 || pos + i >= data.len() || pos + i < 0 {
        None
    } else {
        let b = data[pos + i];
        let acc2 = acc + (b % 128) as nat * pow128(i);
        if b < 128 {
            Some((acc2, (i + 1) as nat))
        } else {
            leb128_from(data, pos, (i + 1) as nat, acc2)
        }
    }
}

/// The LEB128 field at `pos`.
pub open spec fn leb128_at(data: Seq<u8>, pos: int) -> Option<(nat, nat)> {
    leb128_from(data, pos, 0, 0)
}

/// OBU header bit 2: an extension byte follows the header byte.
pub open spec fn obu_has_extension(header: u8) -> bool {
    (header / 4) % 2 == 1
}

/// OBU header bit 1: a LEB128 size field follows.
pub open spec fn obu_has_size(header: u8) -> bool {
    (header / 2) % 2 == 1
}

/// OBU header bits 3..7: the OBU type (1 = sequence header).
pub open spec fn obu_type(header: u8) -> int {
    ((header / 8) % 16) as int
}

/// Scanning size-delimited OBUs from `pos`: the `(start, end)` byte range of
/// the first sequence-header OBU, or `None` when the scan reaches the end of
/// the data, an OBU without a size field, or a malformed size field first.
pub open spec fn seq_header_from(data: Seq<u8>, pos: int) -> Option<(int, int)>
    decreases data.len() - pos,
{
    if pos < 0 || pos >= data.len() {
        None
    } else {
        let h = data[pos];
        let body = pos + 1 + (if obu_has_extension(h) { 1int } else { 0int });
        if !obu_has_size(h) {
            None
        } else {
            match leb128_at(data, body) {
                None => None,
                Some((size, n)) => {
                    let end = body + n + size;
                    if end > data.len() {
                        None
                    } else if obu_type(h) == 1 {
                        Some((pos, end))
                    } else {
                        seq_header_from(data, end)
                    }
                },
            }
        }
    }
}

proof fn lemma_pow128_bound(i: nat)
    requires
        i <= 7,
    ensures
        1 <= pow128(i) <= 0x2_0000_0000_0000,
        pow128(i + 1) == 128 * pow128(i),
{
    reveal_with_fuel(pow128, 9);
    assert(pow128(7) == 0x2_0000_0000_0000);
    if i < 7 {
        assert(pow128(i) <= pow128(7)) by {
            assert(pow128(0) == 1);
            assert(pow128(1) == 128);
            assert(pow128(2) == 16384);
            assert(pow128(3) == 2097152);
            assert(pow128(4) == 268435456);
            assert(pow128(5) == 34359738368);
            assert(pow128(6) == 4398046511104);
        }
    }
}

proof fn lemma_leb128_len(data: Seq<u8>, pos: int, i: nat, acc: nat)
    ensures
        leb128_from(data, pos, i, acc) matches Some((v, n)) ==> i < n <= 8 && pos + n <= data.len(),
    decreases 8 - i,
{
    if !(i >= 8 || pos + i >= data.len() || pos + i < 0) {
        let b = data[pos + i];
        let acc2 = acc + (b % 128) as nat * pow128(i);
        if b >= 128 {
            lemma_leb128_len(data, pos, (i + 1) as nat, acc2);
        }
    }
}

/// Read the LEB128 size field at `pos`.
fn read_leb128(data: &[u8], pos: usize) -> (r: Option<(u64, usize)>)
    ensures
        match leb128_at(data@, pos as int) {
            None => r is None,
            Some((v, n)) => r == Some((v as u64, n as usize)) && v < 0x100_0000_0000_0000,
        },
{
    let mut i: usize = 0;
    let mut acc: u64 = 0;
    let mut mult: u64 = 1;
    while i < 8
        invariant
            i <= 8,
            mult == pow128(i as nat),
            acc < mult,
            leb128_at(data@, pos as int) == leb128_from(data@, pos as int, i as nat, acc as nat),
        decreases 8 - i,
    {
        proof {
            lemma_pow128_bound(i as nat);
        }
        if pos >= data.len() || i >= data.len() - pos {
            return None;
        }
        let b = data[pos + i];
        let low: u64 = (b % 128) as u64;
        assert(low * mult <= 127 * 0x2_0000_0000_0000) by (nonlinear_arith)
            requires low <= 127, mult <= 0x2_0000_0000_0000;
        let part: u64 = low * mult;
        assert(acc + part < 128 * mult) by (nonlinear_arith)
            requires acc < mult, part == low * mult, low <= 127, mult >= 1;
        acc = acc + part;
        if b < 128 {
            return Some((acc, i + 1));
        }
        mult = mult * 128;
        i = i + 1;
    }
    None
}

/// Borrow the complete sequence-header OBU, including its header and size
/// field, from a stream of size-delimited OBUs.
pub fn sequence_header(data: &[u8]) -> (r: Result<&[u8], &'static str>)
    ensures
        match seq_header_from(data@, 0) {
            Some((start, end)) => r matches Ok(s) && s@ == data@.subrange(start, end),
            None => r is Err,
        },
{
    let mut pos: usize = 0;
    while pos < data.len()
        invariant
            pos <= data@.len(),
            seq_header_from(data@, 0) == seq_header_from(data@, pos as int),
        ensures
            seq_header_from(data@, 0) is None,
        decreases data@.len() - pos,
    {
        let header = data[pos];
        let start = pos;
        if (header / 2) % 2 == 0 {
            break;
        }
        let ext: usize = if (header / 4) % 2 == 1 { 1 } else { 0 };
        if ext >= data.len() - pos {
            // The size field would start at or past the end of the data.
            assert(leb128_at(data@, pos + 1 + ext) is None);
            break;
        }
        let body = pos + 1 + ext;
        match read_leb128(data, body) {
            None => {
                break;
            },
            Some((size, n)) => {
                proof {
                    lemma_leb128_len(data@, body as int, 0, 0);
                }
                let consumed = body + n;
                if size > (data.len() - consumed) as u64 {
                    break;
                }
                let end = consumed + size as usize;
                if (header / 8) % 16 == 1 {
                    return Ok(slice_subrange(data, start, end));
                }
                pos = end;
            },
        }
    }
    Err("SVT did not emit a valid sequence header")
}

} // verus!
