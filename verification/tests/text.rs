use uuid::Uuid;
use whitelist_core::mention::mention_to_user_id;
use whitelist_core::uuid_text::{format_uuid, try_format_uuid};

#[test]
fn hyphens_go_after_8_12_16_and_20() {
    assert_eq!(
        format_uuid(String::from("069a79f444e94726a5befca90e38aaf5")),
        "069a79f4-44e9-4726-a5be-fca90e38aaf5"
    );
    assert_eq!(
        format_uuid(String::from("01234567890123456789")),
        "01234567-8901-2345-6789-"
    );
    assert_eq!(
        format_uuid(String::from("0123456789012345678901234567890123456789")),
        "01234567-8901-2345-6789-01234567890123456789"
    );
}

#[test]
fn hyphenation_agrees_with_the_uuid_crate() {
    for simple in [
        "936da01f9abd4d9d80c702af85c822a8",
        "00000000000000000000000000000000",
        "ffffffffffffffffffffffffffffffff",
        "069a79f444e94726a5befca90e38aaf5",
    ] {
        let parsed = Uuid::parse_str(simple).unwrap();
        let expected = parsed
            .to_hyphenated()
            .encode_lower(&mut Uuid::encode_buffer())
            .to_owned();
        assert_eq!(format_uuid(String::from(simple)), expected);
    }
}

#[test]
fn hyphenation_counts_bytes_as_slicing_does() {
    assert_eq!(
        format_uuid(String::from("ééééaabbccddeeffgghh")),
        "éééé-aabb-ccdd-eeff-gghh"
    );
    assert_eq!(
        try_format_uuid(String::from("ééééaabbccddeeffgghh")),
        Some(String::from("éééé-aabb-ccdd-eeff-gghh"))
    );
}

#[test]
fn what_cannot_be_cut_is_not_formatted() {
    assert_eq!(try_format_uuid(String::new()), None);
    assert_eq!(try_format_uuid(String::from("0123456789012345678")), None);
    assert_eq!(try_format_uuid(String::from("0123456éaabbccddeeffgghh")), None);
    assert_eq!(try_format_uuid(String::from("0123456789012345678é")), None);
    assert_eq!(
        try_format_uuid(String::from("012345678901234567é")),
        Some(String::from("01234567-8901-2345-67é-"))
    );
    assert_eq!(
        try_format_uuid(String::from("069a79f444e94726a5befca90e38aaf5")),
        Some(String::from("069a79f4-44e9-4726-a5be-fca90e38aaf5"))
    );
}

#[test]
fn a_mention_names_the_number_its_digits_spell() {
    assert_eq!(mention_to_user_id("<@82982763317166080>"), Some(82_982_763_317_166_080));
    assert_eq!(mention_to_user_id("<@!82982763317166080>"), Some(82_982_763_317_166_080));
    assert_eq!(mention_to_user_id("82982763317166080"), Some(82_982_763_317_166_080));
    assert_eq!(mention_to_user_id("a1b2c3"), Some(123));
    assert_eq!(mention_to_user_id("-5"), Some(5));
    assert_eq!(mention_to_user_id("+5"), Some(5));
    assert_eq!(mention_to_user_id("007"), Some(7));
    assert_eq!(mention_to_user_id("0"), Some(0));
    assert_eq!(mention_to_user_id("é4²2"), Some(42));
}

#[test]
fn a_mention_without_digits_names_no_one() {
    assert_eq!(mention_to_user_id(""), None);
    assert_eq!(mention_to_user_id("<@>"), None);
    assert_eq!(mention_to_user_id("Dunkel"), None);
    assert_eq!(mention_to_user_id("٣"), None);
}

#[test]
fn a_mention_with_too_large_a_number_names_no_one() {
    assert_eq!(mention_to_user_id("18446744073709551615"), Some(u64::MAX));
    assert_eq!(mention_to_user_id("018446744073709551615"), Some(u64::MAX));
    assert_eq!(mention_to_user_id("18446744073709551616"), None);
    assert_eq!(mention_to_user_id("<@184467440737095516150>"), None);
    assert_eq!(mention_to_user_id("99999999999999999999999999999999"), None);
}
