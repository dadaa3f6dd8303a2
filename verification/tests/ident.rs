use ceph_backend::error::ErrorKind;
use ceph_backend::ident::Uuid;

#[test]
fn hyphenated_text_is_lower_case_in_five_groups() {
    let id = Uuid::from_u128(0x936DA01F9ABD4D9D80C702AF85C822A8);
    assert_eq!(id.to_hyphenated_string(), "936da01f-9abd-4d9d-80c7-02af85c822a8");
    assert_eq!(
        Uuid::from_u128(0).to_hyphenated_string(),
        "00000000-0000-0000-0000-000000000000"
    );
    assert_eq!(
        Uuid::from_u128(u128::MAX).to_hyphenated_string(),
        "ffffffff-ffff-ffff-ffff-ffffffffffff"
    );
    assert_eq!(
        Uuid::from_u128(0x0123456789abcdef0123456789abcdef).to_hyphenated_string(),
        "01234567-89ab-cdef-0123-456789abcdef"
    );
}

#[test]
fn hyphenated_text_agrees_with_the_uuid_crate() {
    for bits in [1u128, 0x10, 0xa1a2a3a4b1b2c1c2d1d2d3d4d5d6d7d8, 1 << 127, (1 << 64) - 1] {
        let expected = uuid::Uuid::from_u128(bits).to_hyphenated().to_string();
        assert_eq!(Uuid::from_u128(bits).to_hyphenated_string(), expected);
    }
}

#[test]
fn parse_reads_every_form_the_crate_writes() {
    let bits = 0x936DA01F9ABD4D9D80C702AF85C822A8u128;
    let expected = Ok(Uuid::from_u128(bits));
    assert_eq!(Uuid::parse("936da01f-9abd-4d9d-80c7-02af85c822a8"), expected);
    assert_eq!(Uuid::parse("936DA01F-9ABD-4D9D-80C7-02AF85C822A8"), expected);
    assert_eq!(Uuid::parse("936da01f9abd4d9d80c702af85c822a8"), expected);
    assert_eq!(Uuid::parse("urn:uuid:936da01f-9abd-4d9d-80c7-02af85c822a8"), expected);
}

#[test]
fn parse_reads_the_hyphenated_text_back() {
    for bits in [0u128, 1, u128::MAX, 0x0123456789abcdef0123456789abcdef] {
        let id = Uuid::from_u128(bits);
        assert_eq!(Uuid::parse(&id.to_hyphenated_string()), Ok(id));
        assert_eq!(id.as_u128(), bits);
    }
}

#[test]
fn parse_rejects_what_is_no_uuid() {
    for text in ["", "not a uuid", "936da01f-9abd-4d9d-80c7-02af85c822a", "936da01f-9abd-4d9d-80c7-02af85c822ag", "936da01f9abd-4d9d-80c7-02af85c822a8-"] {
        let e = Uuid::parse(text).unwrap_err();
        assert_eq!(e.kind(), ErrorKind::ParseFailure);
        assert_eq!(e.message(), format!("invalid UUID: {}", text));
    }
}

#[test]
fn random_uuids_differ_and_read_back() {
    let a = Uuid::random();
    let b = Uuid::random();
    assert_ne!(a, b);
    assert_eq!(Uuid::parse(&a.to_hyphenated_string()), Ok(a));
    let text = a.to_hyphenated_string();
    assert_eq!(text.len(), 36);
    assert_eq!(text.as_bytes()[14], b'4');
}

#[test]
fn random_uuids_are_of_version_4_in_the_variant_of_rfc_4122() {
    let mut n = 0;
    while n < 64 {
        let id = Uuid::random();
        assert_eq!((id.as_u128() >> 76) & 0xf, 4);
        assert_eq!((id.as_u128() >> 62) & 0x3, 2);
        let text = id.to_hyphenated_string();
        assert_eq!(text.as_bytes()[14], b'4');
        assert!(matches!(text.as_bytes()[19], b'8' | b'9' | b'a' | b'b'));
        let same = uuid::Uuid::from_u128(id.as_u128());
        assert_eq!(same.get_version_num(), 4);
        assert_eq!(same.get_variant(), Some(uuid::Variant::RFC4122));
        n += 1;
    }
}
