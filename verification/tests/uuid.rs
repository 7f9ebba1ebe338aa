use nuuid::Uuid;
use nuuid::Variant;
use nuuid::Version;

const UUID_V4: &str = "662aa7c7-7598-4d56-8bcc-a72c30f998a2";
const UUID_V4_URN: &str = "urn:uuid:662aa7c7-7598-4d56-8bcc-a72c30f998a2";
const RAW: [u8; 16] = [
    102, 42, 167, 199, 117, 152, 77, 86, 139, 204, 167, 44, 48, 249, 152, 162,
];

#[test]
fn parse_string() {
    let uuid = Uuid::from_str(UUID_V4).unwrap();
    assert_eq!(RAW, uuid.to_bytes(), "Parsed UUID bytes don't match");
    let uuid = Uuid::from_str(UUID_V4_URN).unwrap();
    assert_eq!(RAW, uuid.to_bytes(), "Parsed UUID bytes don't match");
}

#[test]
fn string() {
    let uuid = Uuid::from_bytes(RAW);
    let s = uuid.to_string();
    println!("UUID: `{}`", s);
    assert_eq!(&s[..36], UUID_V4, "UUID strings didn't match");
    let s = uuid.to_urn();
    assert_eq!(s, UUID_V4_URN, "UUID URN strings didn't match");
}

#[test]
fn endian() {
    let uuid_be = Uuid::from_bytes(RAW);
    assert_eq!(uuid_be.version(), Version::Random);
    assert_eq!(uuid_be.variant(), Variant::Rfc4122);

    let uuid_le = Uuid::from_bytes_me(uuid_be.to_bytes_me());
    assert_eq!(uuid_le.version(), Version::Random);
    assert_eq!(uuid_le.variant(), Variant::Rfc4122);
}

#[test]
fn info() {
    let uuid = Uuid::from_bytes(RAW);
    assert_eq!(uuid.version(), Version::Random);
    assert_eq!(uuid.variant(), Variant::Rfc4122);
    let uuid = Uuid::new_v4();
    assert_eq!(uuid.version(), Version::Random);
    assert_eq!(uuid.variant(), Variant::Rfc4122);
}

#[test]
fn text_round_trip() {
    let uuid = Uuid::from_bytes(RAW);
    let back = Uuid::from_str(&uuid.to_string()).unwrap();
    assert_eq!(back.to_bytes(), RAW);
    let back = Uuid::from_str(&uuid.to_urn()).unwrap();
    assert_eq!(back.to_bytes(), RAW);
}

#[test]
fn mixed_endian_round_trip() {
    let uuid = Uuid::from_bytes(RAW);
    let mixed = uuid.to_bytes_me();
    let expected: [u8; 16] = [
        199, 167, 42, 102, 152, 117, 86, 77, 139, 204, 167, 44, 48, 249, 152, 162,
    ];
    assert_eq!(mixed, expected);
    assert_eq!(Uuid::from_bytes_me(mixed).to_bytes(), RAW);
}

#[test]
fn nil_identity() {
    let nil = Uuid::nil();
    assert!(nil.is_nil());
    assert_eq!(nil.version(), Version::Nil);
    assert_eq!(nil.variant(), Variant::Ncs);
    assert_eq!(nil.to_bytes(), [0u8; 16]);
    assert_eq!(
        nil.to_string(),
        "00000000-0000-0000-0000-000000000000"
    );

    let mut bytes = [0u8; 16];
    bytes[15] = 1;
    assert!(!Uuid::from_bytes(bytes).is_nil());
    assert!(!Uuid::from_bytes(RAW).is_nil());
}

#[test]
fn generator_stamps_tag_bits() {
    let uuid = Uuid::v4_from_bytes([0u8; 16]);
    assert_eq!(uuid.version(), Version::Random);
    assert_eq!(uuid.variant(), Variant::Rfc4122);
    assert_eq!(uuid.to_bytes()[6], 0x40);
    assert_eq!(uuid.to_bytes()[8], 0x80);

    let uuid = Uuid::v4_from_bytes([0xffu8; 16]);
    assert_eq!(uuid.version(), Version::Random);
    assert_eq!(uuid.variant(), Variant::Rfc4122);
    assert_eq!(uuid.to_bytes()[6], 0x4f);
    assert_eq!(uuid.to_bytes()[8], 0xbf);
    assert_eq!(uuid.to_bytes()[0], 0xff);
    assert_eq!(uuid.to_bytes()[15], 0xff);
}

#[test]
fn variant_of_every_byte() {
    for b in 0..=255u8 {
        let mut bytes = [0u8; 16];
        bytes[8] = b;
        let v = Uuid::from_bytes(bytes).variant();
        let expected = if b < 0x80 {
            Variant::Ncs
        } else if b < 0xc0 {
            Variant::Rfc4122
        } else if b < 0xe0 {
            Variant::Microsoft
        } else {
            Variant::Reserved
        };
        assert_eq!(v, expected);
    }
}

#[test]
fn parse_not_a_uuid() {
    assert!(Uuid::from_str("not-a-uuid").is_err());
}

#[test]
fn parse_bad_group_length() {
    // 36 characters, but the first group has 7 digits.
    let s = "662aa7c-75980-4d56-8bcc-a72c30f998a2";
    assert_eq!(s.len(), 36);
    assert!(Uuid::from_str(s).is_err());
}

#[test]
fn parse_rejects_malformed() {
    assert!(Uuid::from_str("").is_err());
    assert!(Uuid::from_str("662aa7c7-7598-4d56-8bcc-a72c30f998a").is_err());
    assert!(Uuid::from_str("662aa7c7-7598-4d56-8bcc-a72c30f998a2f").is_err());
    // Non-hex character inside a group.
    assert!(Uuid::from_str("662aa7g7-7598-4d56-8bcc-a72c30f998a2").is_err());
    // A sign is not a hex digit, even where the number parses.
    assert!(Uuid::from_str("+62aa7c7-7598-4d56-8bcc-a72c30f998a2").is_err());
    // Right length, wrong URN prefix.
    assert!(Uuid::from_str("urn-uuid:662aa7c7-7598-4d56-8bcc-a72c30f998a2").is_err());
}

#[test]
fn parse_uppercase() {
    let uuid = Uuid::from_str("662AA7C7-7598-4D56-8BCC-A72C30F998A2").unwrap();
    assert_eq!(uuid.to_bytes(), RAW);
    // Output is always lowercase.
    assert_eq!(uuid.to_string(), UUID_V4);
}
