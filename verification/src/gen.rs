//! Generation of version-4 (random) UUIDs.
use crate::fields::spec_variant;
use crate::fields::spec_version;
use crate::fields::spec_version_recognized;
use crate::fields::spec_version_tag;
use crate::fields::Variant;
use crate::fields::Version;
use crate::Bytes;
use crate::Uuid;
use vstd::prelude::*;

verus! {

/// Relies on rand::random: yields 16 bytes drawn from the thread-local
/// generator. Nothing is promised of their values.
#[verifier::external_body]
fn random_bytes() -> (b: Bytes) {
    rand::random::<[u8; 16]>()
}

impl Uuid {
    /// Stamp the version-4 tag bits onto 16 raw bytes: byte 8 is forced to
    /// the RFC 4122 variant pattern `10xxxxxx` and byte 6 to the random
    /// version pattern `0100xxxx`; every other bit is kept.
    pub fn v4_from_bytes(bytes: Bytes) -> (u: Self)
        ensures
            spec_variant(u@[8]) == Variant::Rfc4122,
            spec_version_tag(u@[6]) == 4,
            spec_version_recognized(u@[6]),
            spec_version(u@[6]) == Version::Random,
            u@[8] == bytes@[8] % 64 + 128,
            u@[6] == bytes@[6] % 16 + 64,
            forall|i: int| 0 <= i < 16 && i != 6 && i != 8 ==> u@[i] == bytes@[i],
    {
        let mut bytes = bytes;
        bytes[8] = bytes[8] % 64 + 128;
        bytes[6] = bytes[6] % 16 + 64;
        Uuid(bytes)
    }

    /// Create a new version-4 (random) UUID.
    ///
    /// Whatever bytes the randomness source hands back, the result always
    /// reports the RFC 4122 variant and the random version.
    pub fn new_v4() -> (u: Self)
        ensures
            spec_variant(u@[8]) == Variant::Rfc4122,
            spec_version_tag(u@[6]) == 4,
            spec_version_recognized(u@[6]),
            spec_version(u@[6]) == Version::Random,
    {
        Uuid::v4_from_bytes(random_bytes())
    }
}

} // verus!
