use vstd::prelude::*;
use vstd::slice::{slice_index_get, slice_subrange, slice_to_vec};

verus! {

/// Classification of a raw payload against the registry framing: a magic zero
/// byte, a four-byte big-endian schema identifier, then the framed bytes.
#[derive(Debug, PartialEq, Eq)]
pub enum BytesResult {
    /// No payload was given.
    Null,
    /// The framing prefix was well formed: identifier and remaining bytes.
    Valid(u32, Vec<u8>),
    /// No recognizable prefix: the untouched input.
    Invalid(Vec<u8>),
}

/// The unsigned 32-bit value of four big-endian bytes.
pub open spec fn be_u32(b: Seq<u8>) -> u32
    recommends
        b.len() == 4,
{
    (b[0] * 0x1000000 + b[1] * 0x10000 + b[2] * 0x100 + b[3]) as u32
}

/// A payload is framed when it starts with the magic zero byte and holds a
/// full four-byte identifier.
pub open spec fn has_valid_prefix(b: Seq<u8>) -> bool {
    b.len() > 4 && b[0] == 0
}

/// The schema identifier of a framed payload.
pub open spec fn framed_id(b: Seq<u8>) -> u32 {
    be_u32(b.subrange(1, 5))
}

/// The bytes of a framed payload after the prefix.
pub open spec fn framed_payload(b: Seq<u8>) -> Seq<u8> {
    b.skip(5)
}

/// Strips the framing prefix when present and well formed; hands back the
/// input untouched otherwise.
pub fn get_bytes_result(bytes: Option<&[u8]>) -> (r: BytesResult)
    ensures
        match bytes {
            None => r is Null,
            Some(b) => {
                if has_valid_prefix(b@) {
                    r matches BytesResult::Valid(id, rest) && id == framed_id(b@) && rest@
                        == framed_payload(b@)
                } else {
                    r matches BytesResult::Invalid(o) && o@ == b@
                }
            },
        },
{
    match bytes {
        None => BytesResult::Null,
        Some(b) => {
            if b.len() > 4 && *slice_index_get(b, 0) == 0u8 {
                let id_bytes = slice_subrange(b, 1, 5);
                let b0 = *slice_index_get(id_bytes, 0) as u32;
                let b1 = *slice_index_get(id_bytes, 1) as u32;
                let b2 = *slice_index_get(id_bytes, 2) as u32;
                let b3 = *slice_index_get(id_bytes, 3) as u32;
                let id = b0 * 0x1000000 + b1 * 0x10000 + b2 * 0x100 + b3;
                let rest = slice_to_vec(slice_subrange(b, 5, b.len()));
                assert(rest@ =~= framed_payload(b@));
                assert(id_bytes@ =~= b@.subrange(1, 5));
                BytesResult::Valid(id, rest)
            } else {
                BytesResult::Invalid(slice_to_vec(b))
            }
        },
    }
}

} // verus!
