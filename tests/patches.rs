use pluralkit_models::limited::{LimitedStr, LimitedUrl};
use pluralkit_models::models::member::{
    MemberPatch, MemberPrivacyPatch, ProxyTag, ProxyTagExceededLimitError,
};
use pluralkit_models::models::{
    color, patchable_color, patchable_datetime, Color, ColorError, Field, FieldValue,
    PatchFieldError, Patchable, Privacy,
};

fn names(fields: &[Field]) -> Vec<String> {
    fields.iter().map(|f| f.name.clone()).collect()
}

#[test]
fn proxy_tag_keeps_fragments_within_limit() {
    let t = ProxyTag::new(Some("["), Some("]")).unwrap();
    assert_eq!(t.prefix.as_deref(), Some("["));
    assert_eq!(t.suffix.as_deref(), Some("]"));
    let t = ProxyTag::new(None, None).unwrap();
    assert!(t.prefix.is_none() && t.suffix.is_none());
}

#[test]
fn proxy_tag_limits_the_pair() {
    let fifty = "a".repeat(50);
    let fifty_one = "a".repeat(51);
    assert!(ProxyTag::new(Some(fifty.as_str()), Some(fifty.as_str())).is_ok());
    assert!(matches!(
        ProxyTag::new(Some(fifty.as_str()), Some(fifty_one.as_str())),
        Err(ProxyTagExceededLimitError)
    ));
    let hundred = "b".repeat(100);
    assert!(ProxyTag::new(Some(hundred.as_str()), None).is_ok());
    assert!(ProxyTag::new(None, Some(hundred.as_str())).is_ok());
    assert!(ProxyTag::new(Some(hundred.as_str()), Some("x")).is_err());
}

#[test]
fn patchable_default_is_unmodified() {
    let p: Patchable<bool> = Patchable::default();
    assert!(p.is_unmodified());
    assert!(!Patchable::Patched(false).is_unmodified());
}

#[test]
fn color_renders_as_hex() {
    assert_eq!(Color::new(255, 0, 0).to_hex(), "ff0000");
    assert_eq!(Color::new(1, 171, 16).to_hex(), "01ab10");
}

#[test]
fn untouched_color_is_omitted() {
    let patch = MemberPatch::default();
    let fields = patch.fields();
    assert_eq!(names(&fields), vec!["proxy_tags".to_string()]);
}

#[test]
fn touched_color_is_written_as_hex() {
    let mut patch = MemberPatch::default();
    patch.color = Patchable::Patched(Some(Color::new(255, 0, 0)));
    let fields = patch.fields();
    assert_eq!(names(&fields), vec!["color".to_string(), "proxy_tags".to_string()]);
    assert!(matches!(&fields[0].value, FieldValue::Text(t) if t == "ff0000"));
}

#[test]
fn cleared_fields_are_written_as_null() {
    let mut patch = MemberPatch::default();
    patch.display_name = Patchable::Patched(None);
    patch.color = Patchable::Patched(None);
    patch.avatar = Patchable::Patched(None);
    let fields = patch.fields();
    assert_eq!(
        names(&fields),
        vec!["display_name", "color", "avatar_url", "proxy_tags"]
            .into_iter()
            .map(String::from)
            .collect::<Vec<_>>()
    );
    assert!(matches!(fields[0].value, FieldValue::Null));
    assert!(matches!(fields[1].value, FieldValue::Null));
    assert!(matches!(fields[2].value, FieldValue::Null));
}

#[test]
fn set_fields_carry_their_values() {
    let mut patch = MemberPatch::default();
    patch.name = Patchable::Patched(LimitedStr::try_from("Alex").unwrap());
    patch.pronouns = Patchable::Patched(Some(LimitedStr::try_from("they/them").unwrap()));
    patch.banner =
        Patchable::Patched(Some(LimitedUrl::try_from("https://example.com/b.png").unwrap()));
    patch.keep_proxy_tags = Patchable::Patched(true);
    patch.autoproxy_enabled = Patchable::Patched(Some(false));
    patch.proxy_tags = vec![ProxyTag::new(Some("a:"), None).unwrap()];
    let fields = patch.fields();
    assert_eq!(
        names(&fields),
        vec!["name", "pronouns", "banner", "proxy_tags", "keep_proxy", "autoproxy_enabled"]
            .into_iter()
            .map(String::from)
            .collect::<Vec<_>>()
    );
    assert!(matches!(&fields[0].value, FieldValue::Text(t) if t == "Alex"));
    assert!(matches!(&fields[1].value, FieldValue::Text(t) if t == "they/them"));
    assert!(matches!(&fields[2].value, FieldValue::Link(u) if u.as_str() == "https://example.com/b.png"));
    assert!(matches!(&fields[3].value, FieldValue::ProxyTags(v) if v.len() == 1 && v[0].prefix.as_deref() == Some("a:")));
    assert!(matches!(fields[4].value, FieldValue::Bool(true)));
    assert!(matches!(fields[5].value, FieldValue::Bool(false)));
}

#[test]
fn private_preset_writes_every_setting() {
    let fields = MemberPrivacyPatch::private().fields();
    let expected = [
        "visibility", "name", "description", "birthday", "pronouns", "avatar", "metadata",
    ];
    assert_eq!(fields.len(), 7);
    for (f, n) in fields.iter().zip(expected.iter()) {
        assert_eq!(f.name, *n);
        assert_eq!(f.value, Privacy::Private);
    }
}

#[test]
fn public_preset_writes_every_setting() {
    let fields = MemberPrivacyPatch::public().fields();
    assert_eq!(fields.len(), 7);
    assert!(fields.iter().all(|f| f.value == Privacy::Public));
}

#[test]
fn partial_privacy_patch_skips_unset() {
    let mut p = MemberPrivacyPatch::default();
    p.avatar = Patchable::Patched(Privacy::Private);
    let fields = p.fields();
    assert_eq!(fields.len(), 1);
    assert_eq!(fields[0].name, "avatar");
    let mut patch = MemberPatch::default();
    patch.privacy = Patchable::Patched(p);
    let fields = patch.fields();
    assert_eq!(names(&fields), vec!["proxy_tags".to_string(), "privacy".to_string()]);
    assert!(matches!(&fields[1].value, FieldValue::PrivacyObject(v) if v.len() == 1 && v[0].name == "avatar"));
}

#[test]
fn encoders_refuse_untouched_fields() {
    assert!(matches!(patchable_color::serialize(&Patchable::Unmodified), Err(PatchFieldError::Unmodified)));
    assert!(matches!(patchable_datetime::serialize(&Patchable::Unmodified), Err(PatchFieldError::Unmodified)));
    assert!(matches!(patchable_color::serialize(&Patchable::Patched(None)), Ok(FieldValue::Null)));
    let t = time::OffsetDateTime::UNIX_EPOCH;
    assert!(matches!(patchable_datetime::serialize(&Patchable::Patched(Some(t))), Ok(FieldValue::Timestamp(d)) if d == t));
}

#[test]
fn color_reads_hex_of_either_case() {
    assert_eq!(Color::from_hex("ff0000"), Ok(Color::new(255, 0, 0)));
    assert_eq!(Color::from_hex("01AB10"), Ok(Color::new(1, 171, 16)));
    let c = Color::new(18, 52, 86);
    assert_eq!(Color::from_hex(&c.to_hex()), Ok(c));
}

#[test]
fn color_refuses_bad_text() {
    assert_eq!(Color::from_hex("ff00"), Err(ColorError::IncorrectLength));
    assert_eq!(Color::from_hex("ff000000"), Err(ColorError::IncorrectLength));
    assert!(matches!(Color::from_hex("zz0000"), Err(ColorError::NotHex(_))));
    assert!(matches!(Color::from_hex("fff"), Err(ColorError::NotHex(_))));
}

#[test]
fn optional_color_codec() {
    assert!(matches!(color::serialize(&None), FieldValue::Null));
    assert!(matches!(color::serialize(&Some(Color::new(0, 0, 255))), FieldValue::Text(t) if t == "0000ff"));
    assert_eq!(color::deserialize(None), Ok(None));
    assert_eq!(color::deserialize(Some("00FF00")), Ok(Some(Color::new(0, 255, 0))));
    assert_eq!(color::deserialize(Some("00ff")), Err(ColorError::IncorrectLength));
}
