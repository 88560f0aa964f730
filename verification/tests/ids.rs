use std::collections::HashSet;

use newtype_id::Id;
use newtype_id::PrefixedId;
use newtype_id::kinds::OrderId;
use newtype_id::kinds::UserId;
use newtype_id::kinds::UserKind;

const SUFFIX_ALPHABET: &str = "_-0123456789abcdefghijklmnopqrstuvwxyzABCDEFGHIJKLMNOPQRSTUVWXYZ";

#[test]
fn round_trip() {
    let v = UserId::new();
    let s = v.render();
    let parsed = UserId::parse(&s).expect("a generated id must parse back");
    assert!(parsed == v);
    assert_eq!(parsed.as_str(), v.as_str());
}

#[test]
fn prefix_fidelity() {
    let s = Id::generate("usr");
    assert!(s.starts_with("usr_"));
    let v = UserId::new();
    assert!(v.as_str().starts_with("usr_"));
    let o = OrderId::new();
    assert!(o.as_str().starts_with("ord_"));
}

#[test]
fn generated_shape() {
    let s = Id::generate("py");
    assert_eq!(s.chars().count(), 2 + 1 + 21);
    assert_eq!(&s[..3], "py_");
    for c in s[3..].chars() {
        assert!(SUFFIX_ALPHABET.contains(c), "unexpected suffix character {c:?}");
    }
}

#[test]
fn empty_prefix_edge() {
    let s = Id::generate("");
    assert_eq!(s.chars().count(), 22);
    assert!(s.starts_with('_'));
    let r = Id::parse(&s, &vec![String::new()], "AnyId");
    assert_eq!(r.unwrap(), s);
}

#[test]
fn rejection() {
    let r = Id::parse("xyz_abc123", &vec!["usr".to_string()], "UserId");
    let e = r.expect_err("a foreign prefix must be rejected");
    assert_eq!(e.typename, "UserId");
    assert_eq!(e.expected, "id to start with usr");
    assert_eq!(e.message(), "invalid `UserId`, expected id to start with usr");
}

#[test]
fn rejection_names_every_prefix() {
    let e = UserId::parse("xyz_abc123").expect_err("a foreign prefix must be rejected");
    assert_eq!(e.typename, "UserId");
    assert_eq!(e.expected, "id to start with usr or user");
    assert_eq!(
        e.message(),
        "invalid `UserId`, expected id to start with usr or user"
    );
}

#[test]
fn alias_acceptance() {
    let a = UserId::parse("usr_ABC123").expect("primary prefix accepted");
    assert_eq!(a.render(), "usr_ABC123");
    let b = UserId::parse("user_ABC123").expect("alias prefix accepted");
    assert_eq!(b.render(), "user_ABC123");
}

#[test]
fn separator_is_required() {
    assert!(UserId::parse("usr").is_err());
    assert!(UserId::parse("usrABC123").is_err());
    assert!(UserId::parse("usrX_ABC123").is_err());
    assert!(UserId::parse("").is_err());
}

#[test]
fn suffix_is_not_validated() {
    // Deliberately lenient: only the prefix tag is checked.
    let v = UserId::parse("usr_").expect("empty suffix accepted");
    assert_eq!(v.as_str(), "usr_");
    let w = UserId::parse("usr_!! not an id at all !!").expect("odd suffix accepted");
    assert_eq!(w.as_str(), "usr_!! not an id at all !!");
}

#[test]
fn engine_parse_keeps_candidate() {
    let prefixes = vec!["usr".to_string(), "user".to_string()];
    let r = Id::parse("user_zzz", &prefixes, "UserId");
    assert_eq!(r.unwrap(), "user_zzz");
}

#[test]
fn type_discrimination() {
    // UserId and OrderId are distinct types: comparing them does not even
    // compile. Their string forms differ too, whatever the suffixes.
    let u = UserId::new();
    let o = OrderId::new();
    assert_ne!(u.as_str(), o.as_str());
}

#[test]
fn collision_resistance() {
    let mut seen: HashSet<String> = HashSet::with_capacity(1_000_000);
    for _ in 0..1_000_000 {
        assert!(seen.insert(Id::generate("usr")), "duplicate id generated");
    }
}

#[test]
fn idempotent_rendering() {
    let v = UserId::new();
    let s = v.render();
    let reparsed = UserId::parse(&s).expect("a rendered id must parse back");
    assert_eq!(reparsed.render(), s);

    let alias = UserId::parse("user_ABC123").expect("alias prefix accepted");
    let s2 = alias.render();
    let reparsed2 = UserId::parse(&s2).expect("a rendered id must parse back");
    assert_eq!(reparsed2.render(), s2);
}

#[test]
fn null_handling() {
    assert!(matches!(UserId::decode_column(None), Ok(None)));
    assert!(UserId::encode_column(None).is_none());

    let v = UserId::new();
    let raw = v.render();
    let stored = UserId::encode_column(Some(v.clone()));
    assert_eq!(stored, Some(raw.clone()));
    let read = UserId::decode_column(stored).expect("a stored id must read back");
    assert_eq!(read.expect("a stored id is not NULL").as_str(), raw);
}

#[test]
fn decode_column_surfaces_parse_error() {
    let e = UserId::decode_column(Some("ord_ABC123".to_string()))
        .expect_err("a foreign prefix must be rejected");
    assert_eq!(e.typename, "UserId");
    assert_eq!(e.expected, "id to start with usr or user");
}

#[test]
fn never_from_a_number() {
    let e = UserId::from_numeric(42).expect_err("numeric surrogates are rejected");
    assert_eq!(e.typename, "UserId");
    assert_eq!(e.expected, "id built from a string, never from a number");
}

#[test]
fn equality_is_over_the_string_form() {
    let v = UserId::parse("usr_ABC123").unwrap();
    let w = UserId::parse("usr_ABC123").unwrap();
    let x = UserId::parse("usr_other").unwrap();
    assert!(v == w);
    assert!(v != x);
    assert!(v.eq_str("usr_ABC123"));
    assert!(!v.eq_str("usr_other"));
    assert!(v.clone() == v);
}

#[test]
fn default_mints_a_fresh_id() {
    let v = UserId::default();
    assert!(v.as_str().starts_with("usr_"));
    let w = UserId::default();
    assert_ne!(v.as_str(), w.as_str());
}

#[test]
fn prefixed_id_trait_surface() {
    assert_eq!(UserKind::id_prefix(), "usr");
    assert_eq!(UserKind::display_name(), "UserId");
    assert_eq!(
        UserKind::accepted_prefixes(),
        vec!["usr".to_string(), "user".to_string()]
    );
    let s = UserKind::new_id();
    assert!(s.starts_with("usr_"));
    assert_eq!(s.chars().count(), 25);
}
