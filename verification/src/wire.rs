use vstd::prelude::*;
use vstd::slice::{slice_index_get, slice_subrange, slice_to_vec};

use crate::error::SRCError;

verus! {

/// The value and byte length of the base-128 varint starting at `i`: each byte
/// contributes seven low-order bits, least significant group first, and a byte
/// below 128 terminates the encoding. `None` when the bytes end first.
pub open spec fn varint_at(b: Seq<u8>, i: int) -> Option<(nat, nat)>
    decreases b.len() - i,
{
    if i < 0 || i >= b.len() {
        None
    } else if b[i] < 128 {
        Some(((b[i] as nat), 1nat))
    } else {
        match varint_at(b, i + 1) {
            None => None,
            Some(p) => Some(((b[i] - 128 + 128 * p.0) as nat, (p.1 + 1) as nat)),
        }
    }
}

/// 128 to the power `n`: the bound on a varint value of `n` bytes.
pub open spec fn pow128(n: nat) -> nat
    decreases n,
{
    if n == 0 {
        1
    } else {
        128 * pow128((n - 1) as nat)
    }
}

/// The zigzag decoding of an unsigned varint value: even values are
/// non-negative, odd values negative.
pub open spec fn zigzag(v: nat) -> int {
    if v % 2 == 0 {
        (v / 2) as int
    } else {
        -(((v + 1) / 2) as int)
    }
}

proof fn lemma_varint_at_bound(b: Seq<u8>, i: int)
    ensures
        varint_at(b, i) matches Some(p) ==> p.0 < pow128(p.1) && p.1 >= 1,
    decreases b.len() - i,
{
    if i < 0 || i >= b.len() {
    } else if b[i] < 128 {
        assert(pow128(1) == 128 * pow128(0));
    } else {
        lemma_varint_at_bound(b, i + 1);
        let m = varint_at(b, i + 1);
        if m is Some {
            assert(pow128(m->Some_0.1 + 1) == 128 * pow128(m->Some_0.1));
        }
    }
}

/// Reads the varint at `pos`, refusing encodings longer than five bytes
/// (enough for any 32-bit index).
fn read_varint(b: &[u8], pos: usize) -> (r: Option<(u64, usize)>)
    requires
        pos <= b@.len(),
    ensures
        match r {
            Some(p) => varint_at(b@, pos as int) == Some((p.0 as nat, p.1 as nat)) && 1 <= p.1 <= 5
                && p.0 < pow128(p.1 as nat) && pos + p.1 <= b@.len(),
            None => !(varint_at(b@, pos as int) matches Some(q) && q.1 <= 5),
        },
    decreases b@.len() - pos,
{
    proof {
        lemma_varint_at_bound(b@, pos as int);
    }
    if pos >= b.len() {
        return None;
    }
    let byte = *slice_index_get(b, pos);
    if byte < 128 {
        proof {
            assert(pow128(1) == 128 * pow128(0));
        }
        return Some((byte as u64, 1));
    }
    match read_varint(b, pos + 1) {
        None => None,
        Some((v, n)) => {
            if n >= 5 {
                None
            } else {
                proof {
                    lemma_pow128_small();
                    assert(pow128(n as nat + 1) == 128 * pow128(n as nat));
                }
                Some(((byte - 128) as u64 + 128 * v, n + 1))
            }
        },
    }
}

/// Whether an integer fits a 32-bit signed index.
pub open spec fn fits_i32(v: int) -> bool {
    -0x80000000 <= v <= 0x7fffffff
}

/// The index values read from `count` consecutive zigzag varints starting at
/// `i`, with the position after the last one. `None` when the bytes run out,
/// an encoding is longer than five bytes, or a value overflows 32 bits.
pub open spec fn indexes_at(b: Seq<u8>, i: int, count: int) -> Option<(Seq<i32>, int)>
    decreases count,
{
    if count <= 0 {
        Some((Seq::empty(), i))
    } else {
        match varint_at(b, i) {
            None => None,
            Some(p) => {
                if p.1 > 5 || !fits_i32(zigzag(p.0)) {
                    None
                } else {
                    match indexes_at(b, i + p.1, count - 1) {
                        None => None,
                        Some(q) => Some((seq![zigzag(p.0) as i32] + q.0, q.1)),
                    }
                }
            },
        }
    }
}

/// The wire envelope split into its message-index path and the payload bytes.
/// A single zero byte is the shorthand for the path `[0]`; otherwise a zigzag
/// varint count is followed by that many zigzag varint indexes. `None` for a
/// malformed envelope.
pub open spec fn envelope_split(b: Seq<u8>) -> Option<(Seq<i32>, Seq<u8>)> {
    if b.len() == 0 {
        None
    } else if b[0] == 0 {
        Some((seq![0i32], b.skip(1)))
    } else {
        match varint_at(b, 0) {
            None => None,
            Some(p) => {
                if p.1 > 5 {
                    None
                } else {
                    let count = zigzag(p.0);
                    if count < 0 || count > b.len() {
                        None
                    } else {
                        match indexes_at(b, p.1 as int, count) {
                            None => None,
                            Some(q) => Some((q.0, b.skip(q.1))),
                        }
                    }
                }
            },
        }
    }
}

proof fn lemma_pow128_small()
    ensures
        pow128(0) == 1,
        pow128(1) == 0x80,
        pow128(2) == 0x4000,
        pow128(3) == 0x200000,
        pow128(4) == 0x10000000,
        pow128(5) == 0x800000000,
{
    assert(pow128(0) == 1);
    assert(pow128(1) == 128 * pow128(0));
    assert(pow128(2) == 128 * pow128(1));
    assert(pow128(3) == 128 * pow128(2));
    assert(pow128(4) == 128 * pow128(3));
    assert(pow128(5) == 128 * pow128(4));
}

/// The zigzag decoding of a small varint value, as a signed 64-bit integer.
fn zigzag_i64(v: u64) -> (z: i64)
    requires
        v < 0x8000000000,
    ensures
        z == zigzag(v as nat),
{
    if v % 2 == 0 {
        (v / 2) as i64
    } else {
        -(((v + 1) / 2) as i64)
    }
}

/// Decodes a zigzag varint value into a 32-bit index, refusing values outside
/// that range.
fn zigzag_to_i32(v: u64) -> (r: Option<i32>)
    requires
        v < 0x8000000000,
    ensures
        match r {
            Some(z) => fits_i32(zigzag(v as nat)) && z == zigzag(v as nat),
            None => !fits_i32(zigzag(v as nat)),
        },
{
    if v % 2 == 0 {
        let h = v / 2;
        assert(zigzag(v as nat) == h as int);
        if h <= 0x7fffffff {
            Some(h as i32)
        } else {
            None
        }
    } else {
        let h = (v + 1) / 2;
        assert(zigzag(v as nat) == -(h as int));
        if h <= 0x80000000 {
            let neg: i64 = -(h as i64);
            Some(neg as i32)
        } else {
            None
        }
    }
}

/// Splits the bytes that follow the identifier prefix into the message-index
/// path and the protobuf payload, exactly as `envelope_split` reads them; a
/// malformed envelope gives a fresh non-retryable error.
#[verifier::loop_isolation(false)]
pub fn to_index_and_data(bytes: &[u8]) -> (r: Result<(Vec<i32>, Vec<u8>), SRCError>)
    ensures
        match envelope_split(bytes@) {
            Some(p) => r matches Ok(q) && q.0@ == p.0 && q.1@ == p.1,
            None => r matches Err(e) && !e.retriable && !e.cached && e.error@
                == "invalid wire envelope"@ && e.cause is None,
        },
{
    let invalid_msg = "invalid wire envelope";
    if bytes.len() == 0 {
        return Err(SRCError::new(invalid_msg, None, false));
    }
    if *slice_index_get(bytes, 0) == 0u8 {
        let mut path: Vec<i32> = Vec::new();
        path.push(0);
        let data = slice_to_vec(slice_subrange(bytes, 1, bytes.len()));
        assert(path@ =~= seq![0i32]);
        assert(data@ =~= bytes@.skip(1));
        return Ok((path, data));
    }
    let (count_raw, count_len) = match read_varint(bytes, 0) {
        None => {
            return Err(SRCError::new(invalid_msg, None, false));
        },
        Some(p) => p,
    };
    proof {
        lemma_pow128_small();
    }
    let count = zigzag_i64(count_raw);
    if count < 0 || count as u64 > bytes.len() as u64 {
        return Err(SRCError::new(invalid_msg, None, false));
    }
    let total: usize = count as usize;
    let mut path: Vec<i32> = Vec::new();
    let mut pos: usize = count_len;
    let mut k: usize = 0;
    proof {
        let m = indexes_at(bytes@, count_len as int, total as int);
        if m is Some {
            assert(Seq::<i32>::empty() + m->Some_0.0 =~= m->Some_0.0);
        }
        assert(path@ =~= Seq::<i32>::empty());
    }
    while k < total
        invariant
            0 <= k <= total,
            total <= bytes@.len(),
            pos <= bytes@.len(),
            path@.len() == k,
            indexes_at(bytes@, count_len as int, total as int) == match indexes_at(
                bytes@,
                pos as int,
                total - k,
            ) {
                Some(q) => Some((path@ + q.0, q.1)),
                None => None::<(Seq<i32>, int)>,
            },
        decreases total - k,
    {
        let (v, n) = match read_varint(bytes, pos) {
            None => {
                return Err(SRCError::new(invalid_msg, None, false));
            },
            Some(p) => p,
        };
        proof {
            lemma_pow128_small();
        }
        let z = match zigzag_to_i32(v) {
            None => {
                return Err(SRCError::new(invalid_msg, None, false));
            },
            Some(z) => z,
        };
        proof {
            let m = indexes_at(bytes@, pos as int + n as int, total - k - 1);
            if m is Some {
                assert(path@ + (seq![z] + m->Some_0.0) =~= (path@ + seq![z]) + m->Some_0.0);
            }
        }
        path.push(z);
        pos = pos + n;
        k = k + 1;
    }
    assert(indexes_at(bytes@, pos as int, 0) == Some((Seq::<i32>::empty(), pos as int)));
    proof {
        assert(path@ + Seq::<i32>::empty() =~= path@);
    }
    let data = slice_to_vec(slice_subrange(bytes, pos, bytes.len()));
    assert(data@ =~= bytes@.skip(pos as int));
    Ok((path, data))
}

} // verus!
