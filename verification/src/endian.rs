//! Reinterpretation between the canonical big-endian byte layout and the
//! legacy mixed-endian layout, in which the first three fields are stored
//! with reversed byte order.
use crate::Bytes;
use crate::Uuid;
use vstd::prelude::*;

verus! {

/// Where byte `i` of the mixed-endian layout comes from in the canonical
/// layout: the ranges `[0, 4)`, `[4, 6)` and `[6, 8)` are reversed and the
/// rest keep their place.
pub open spec fn spec_mixed_index(i: int) -> int {
    if 0 <= i < 4 {
        3 - i
    } else if 4 <= i < 6 {
        9 - i
    } else if 6 <= i < 8 {
        13 - i
    } else {
        i
    }
}

/// The mixed-endian reordering of a 16-byte sequence.
pub open spec fn spec_mixed(s: Seq<u8>) -> Seq<u8>
    recommends
        s.len() == 16,
{
    Seq::new(16, |i: int| s[spec_mixed_index(i)])
}

/// The mixed-endian reordering is an involution: applying it twice gives
/// back the original 16 bytes.
pub proof fn lemma_mixed_involution(s: Seq<u8>)
    requires
        s.len() == 16,
    ensures
        spec_mixed(spec_mixed(s)) == s,
{
    assert(spec_mixed(spec_mixed(s)) =~= s);
}

impl Uuid {
    /// Create a UUID from mixed-endian bytes.
    ///
    /// This is primarily for compatibility with legacy UUIDs that use a
    /// mixed-endian format where the first three fields are little-endian.
    pub fn from_bytes_me(bytes: Bytes) -> (u: Self)
        ensures
            u@ == spec_mixed(bytes@),
    {
        let u = Uuid(
            [
                bytes[3],
                bytes[2],
                bytes[1],
                bytes[0],
                bytes[5],
                bytes[4],
                bytes[7],
                bytes[6],
                bytes[8],
                bytes[9],
                bytes[10],
                bytes[11],
                bytes[12],
                bytes[13],
                bytes[14],
                bytes[15],
            ],
        );
        proof {
            assert(u@ =~= spec_mixed(bytes@));
        }
        u
    }

    /// Return the UUID as mixed-endian bytes.
    ///
    /// See [`Uuid::from_bytes_me`] for details.
    pub fn to_bytes_me(self) -> (b: Bytes)
        ensures
            b@ == spec_mixed(self@),
    {
        let bytes = self.0;
        let b: Bytes = [
            bytes[3],
            bytes[2],
            bytes[1],
            bytes[0],
            bytes[5],
            bytes[4],
            bytes[7],
            bytes[6],
            bytes[8],
            bytes[9],
            bytes[10],
            bytes[11],
            bytes[12],
            bytes[13],
            bytes[14],
            bytes[15],
        ];
        proof {
            assert(b@ =~= spec_mixed(self@));
        }
        b
    }
}

} // verus!
