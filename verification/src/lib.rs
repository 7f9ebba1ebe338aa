//! A self-contained codec for 128-bit universally unique identifiers:
//! construction, variant/version inspection, mixed-endian reinterpretation,
//! canonical and URN text formatting and parsing, and version-4 generation.
use vstd::prelude::*;

pub mod endian;
pub mod fields;
pub mod gen;
pub mod text;

pub use fields::Variant;
pub use fields::Version;
pub use text::ParseUuidError;

verus! {

/// The 16 bytes of a UUID.
pub type Bytes = [u8; 16];

/// Universally Unique Identifier, or UUID.
///
/// UUID fields are always laid out MSB-first, or big-endian.
#[derive(Debug, Copy, Clone)]
pub struct Uuid(pub Bytes);

impl View for Uuid {
    type V = Seq<u8>;

    open spec fn view(&self) -> Seq<u8> {
        self.0@
    }
}

/// The all-zero byte sequence of the nil UUID.
pub open spec fn spec_nil_bytes() -> Seq<u8> {
    Seq::new(16, |i: int| 0u8)
}

/// A byte sequence is nil when every byte is zero.
pub open spec fn spec_is_nil(s: Seq<u8>) -> bool {
    forall|i: int| 0 <= i < s.len() ==> s[i] == 0u8
}

impl Uuid {
    /// The special nil UUID, where all bits are set to zero.
    pub fn nil() -> (u: Self)
        ensures
            u@ == spec_nil_bytes(),
    {
        let u = Uuid([0; 16]);
        proof {
            assert(u@ =~= spec_nil_bytes());
        }
        u
    }

    /// Returns true if the UUID is nil.
    pub fn is_nil(self) -> (r: bool)
        ensures
            r == spec_is_nil(self@),
    {
        let mut i: usize = 0;
        while i < 16
            invariant
                i <= 16,
                forall|j: int| 0 <= j < i ==> self@[j] == 0u8,
            decreases 16 - i,
        {
            if self.0[i] != 0 {
                return false;
            }
            i += 1;
        }
        true
    }

    /// Create a UUID from bytes.
    pub fn from_bytes(bytes: Bytes) -> (u: Self)
        ensures
            u@ == bytes@,
    {
        Self(bytes)
    }

    /// Return the UUID as its bytes.
    pub fn to_bytes(self) -> (b: Bytes)
        ensures
            b@ == self@,
    {
        self.0
    }
}

/// The nil UUID is nil, its version tag is the nil version, and every
/// 16-byte sequence other than the all-zero one is not nil.
pub proof fn lemma_nil_identity()
    ensures
        spec_is_nil(spec_nil_bytes()),
        fields::spec_version(spec_nil_bytes()[6]) == Version::Nil,
        forall|s: Seq<u8>| s.len() == 16 && s != spec_nil_bytes() ==> !spec_is_nil(s),
{
    assert forall|s: Seq<u8>| s.len() == 16 && s != spec_nil_bytes() implies !spec_is_nil(s) by {
        if spec_is_nil(s) {
            assert(s =~= spec_nil_bytes());
        }
    }
}

} // verus!
