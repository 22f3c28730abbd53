use pluralkit_models::references::{GenericRef, ShortError, ShortId, SystemRef};
use uuid::Uuid;

#[test]
fn short_id_accepts_five_letters() {
    let id = ShortId::try_from("ptckn").unwrap();
    assert_eq!(id.to_string(), "ptckn");
    assert_eq!(&*id, "ptckn");
}

#[test]
fn short_id_refuses_upper_case() {
    assert_eq!(ShortId::try_from("Ptckn"), Err(ShortError::InvalidCharacters));
}

#[test]
fn short_id_refuses_short_text() {
    assert_eq!(ShortId::try_from("ptck"), Err(ShortError::IncorrectLength));
    assert_eq!(ShortId::try_from(""), Err(ShortError::IncorrectLength));
}

#[test]
fn short_id_checks_length_before_characters() {
    assert_eq!(ShortId::try_from("12345678"), Err(ShortError::IncorrectLength));
    assert_eq!(ShortId::try_from("1234!"), Err(ShortError::InvalidCharacters));
}

#[test]
fn short_id_length_is_in_bytes() {
    // Five characters, six bytes.
    assert_eq!(ShortId::try_from("ptckñ"), Err(ShortError::IncorrectLength));
    // Five bytes, not all letters.
    assert_eq!(ShortId::try_from("ptc-n"), Err(ShortError::InvalidCharacters));
}

#[test]
fn short_id_accepts_edges_of_alphabet() {
    assert_eq!(ShortId::parse("azazz").unwrap().to_string(), "azazz");
    assert_eq!(ShortId::parse("az`zz"), Err(ShortError::InvalidCharacters));
    assert_eq!(ShortId::parse("az{zz"), Err(ShortError::InvalidCharacters));
}

#[test]
fn generic_ref_parses_short_id() {
    let r = GenericRef::try_from("abcde").unwrap();
    assert_eq!(r.to_string(), "abcde");
    assert!(matches!(GenericRef::try_from("ABCDE"), Err(ShortError::InvalidCharacters)));
}

#[test]
fn generic_ref_renders_uuid() {
    let u = Uuid::from_u128(0x30523e4f_dd68_4b91_8ee0_59c7598db16c);
    let r = GenericRef::from(u);
    assert_eq!(r.to_string(), "30523e4f-dd68-4b91-8ee0-59c7598db16c");
}

#[test]
fn system_ref_renders_each_kind() {
    assert_eq!(SystemRef::try_from("rwqjp").unwrap().to_string(), "rwqjp");
    let u = Uuid::from_u128(0xdeb31677_c36c_41db_bef5_5d1e8e2f3ad7);
    assert_eq!(SystemRef::from(u).to_string(), "deb31677-c36c-41db-bef5-5d1e8e2f3ad7");
    assert_eq!(SystemRef::from(521031433972744193u64).to_string(), "521031433972744193");
    assert_eq!(SystemRef::from(0u64).to_string(), "0");
    assert_eq!(SystemRef::from(u64::MAX).to_string(), "18446744073709551615");
    assert_eq!(SystemRef::Current.to_string(), "@me");
}

#[test]
fn system_ref_refuses_bad_text() {
    assert!(matches!(SystemRef::try_from("rwqj"), Err(ShortError::IncorrectLength)));
}
