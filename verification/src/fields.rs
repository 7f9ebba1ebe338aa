//! Inspection of the variant and version tag bits of a UUID.
use crate::Uuid;
use vstd::prelude::*;

verus! {

/// UUID variants.
#[derive(Debug, Copy, Clone, Ord, PartialOrd, Eq, PartialEq, Structural)]
pub enum Variant {
    /// Reserved for NCS backward compatibility.
    Ncs,
    /// RFC 4122 conforming UUIDs.
    Rfc4122,
    /// Reserved for legacy Microsoft backward compatibility.
    Microsoft,
    /// Reserved for the future.
    Reserved,
}

/// UUID versions.
#[derive(Debug, Copy, Clone, Ord, PartialOrd, Eq, PartialEq, Structural)]
pub enum Version {
    /// Version 1, time based.
    Time,
    /// Version 2, DCE Security.
    Dce,
    /// Version 3, MD5 name based.
    Md5,
    /// Version 4, random.
    Random,
    /// Version 5, SHA-1 name based.
    Sha1,
    /// Special case for the nil UUID.
    Nil,
}

/// The variant encoded by the most significant bits of byte 8:
/// `0xx` is NCS, `10x` is RFC 4122, `110` is Microsoft, `111` is reserved.
pub open spec fn spec_variant(b: u8) -> Variant {
    if b / 128 == 0 {
        Variant::Ncs
    } else if b / 64 == 2 {
        Variant::Rfc4122
    } else if b / 32 == 6 {
        Variant::Microsoft
    } else {
        Variant::Reserved
    }
}

/// The 4-bit version tag: the most significant nibble of byte 6.
pub open spec fn spec_version_tag(b: u8) -> u8 {
    b / 16
}

/// Whether the version tag of byte 6 is one of the six named versions.
pub open spec fn spec_version_recognized(b: u8) -> bool {
    spec_version_tag(b) <= 5
}

/// The version named by the tag nibble of byte 6, for recognized tags.
pub open spec fn spec_version(b: u8) -> Version
    recommends
        spec_version_recognized(b),
{
    let tag = spec_version_tag(b);
    if tag == 0 {
        Version::Nil
    } else if tag == 1 {
        Version::Time
    } else if tag == 2 {
        Version::Dce
    } else if tag == 3 {
        Version::Md5
    } else if tag == 4 {
        Version::Random
    } else {
        Version::Sha1
    }
}

/// Classification is total: every byte value maps to exactly one of the
/// four named variants, so `variant` never fails on any byte pattern.
pub proof fn lemma_variant_total(b: u8)
    ensures
        spec_variant(b) == Variant::Ncs || spec_variant(b) == Variant::Rfc4122
            || spec_variant(b) == Variant::Microsoft || spec_variant(b) == Variant::Reserved,
{
}

impl Uuid {
    /// The UUID variant, read from the top bits of byte 8.
    pub fn variant(self) -> (v: Variant)
        ensures
            v == spec_variant(self@[8]),
    {
        let b = self.0[8];
        if b / 128 == 0 {
            Variant::Ncs
        } else if b / 64 == 2 {
            Variant::Rfc4122
        } else if b / 32 == 6 {
            Variant::Microsoft
        } else {
            Variant::Reserved
        }
    }

    /// The UUID version, read from the top nibble of byte 6.
    ///
    /// Callers must not pass a UUID whose version tag is not one of the six
    /// named patterns: an unrecognized tag is treated as data misuse, not as
    /// a recoverable condition. (A more lenient design would name an
    /// `Unknown` version instead; the stricter precondition is kept here so
    /// that no unrecognized tag can silently pass as a named version.)
    pub fn version(self) -> (v: Version)
        requires
            spec_version_recognized(self@[6]),
        ensures
            v == spec_version(self@[6]),
    {
        let tag = self.0[6] / 16;
        if tag == 0 {
            Version::Nil
        } else if tag == 1 {
            Version::Time
        } else if tag == 2 {
            Version::Dce
        } else if tag == 3 {
            Version::Md5
        } else if tag == 4 {
            Version::Random
        } else {
            Version::Sha1
        }
    }
}

} // verus!
