use std::borrow::Cow;
use std::sync::Arc;
use titanium::intents::{INTENTS_KNOWN, INTENTS_NON_PRIVILEGED, INTENTS_PRIVILEGED};
use titanium::permissions::PERMISSIONS_KNOWN;
use titanium::{Intents, Permissions, Snowflake, TitanString};

#[test]
fn permissions_union_contains_both() {
    let p = Permissions::KICK_MEMBERS() | Permissions::BAN_MEMBERS();
    assert!(p.contains(Permissions::KICK_MEMBERS()));
    assert!(p.contains(Permissions::BAN_MEMBERS()));
    assert!(!p.contains(Permissions::ADMINISTRATOR()));
    assert_eq!(p.bits(), 0b110);
    assert_eq!(p.union(Permissions::ADMINISTRATOR()).bits(), 0b1110);
}

#[test]
fn permissions_insert_then_remove() {
    let mut p = Permissions::empty();
    assert!(p.is_empty());
    p.insert(Permissions::SEND_MESSAGES());
    assert!(p.contains(Permissions::SEND_MESSAGES()));
    p.remove(Permissions::SEND_MESSAGES());
    assert!(!p.intersects(Permissions::SEND_MESSAGES()));
    assert!(p.is_empty());
    p.set(Permissions::SPEAK(), true);
    assert_eq!(p.bits(), 1 << 21);
    p.toggle(Permissions::SPEAK());
    assert_eq!(p.bits(), 0);
}

#[test]
fn permissions_known_bits_and_truncation() {
    assert_eq!(Permissions::all().bits(), PERMISSIONS_KNOWN);
    assert!(Permissions::all().is_all());
    assert_eq!(Permissions::SEND_VOICE_MESSAGES().bits(), 1 << 46);
    assert_eq!(Permissions::from_bits(1 << 43), None);
    assert_eq!(Permissions::from_bits(1 << 42).map(|p| p.bits()), Some(1 << 42));
    assert_eq!(Permissions::from_bits_truncate(u64::MAX).bits(), PERMISSIONS_KNOWN);
    assert_eq!(Permissions::from_bits_retain(1 << 43).bits(), 1 << 43);
    let p = Permissions::from_bits_truncate(0b1010);
    assert_eq!(p.complement().complement(), p);
    assert_eq!(p.intersection(Permissions::from_bits_truncate(0b0011)).bits(), 0b0010);
    assert_eq!(p.difference(Permissions::from_bits_truncate(0b0010)).bits(), 0b1000);
    assert_eq!((p & Permissions::ADMINISTRATOR()).bits(), 0b1000);
}

#[test]
fn permissions_string_form() {
    let p = Permissions::ADMINISTRATOR() | Permissions::MANAGE_GUILD();
    assert_eq!(p.to_string(), "40");
    assert_eq!(Permissions::parse(&p.to_string()), Some(p));
    assert_eq!(Permissions::parse("8").map(|p| p.bits()), Some(8));
    assert_eq!(Permissions::parse("18446744073709551615").map(|p| p.bits()), Some(PERMISSIONS_KNOWN));
    assert_eq!(Permissions::parse("x8"), None);
    assert_eq!(Permissions::parse(""), None);
    assert_eq!(Permissions::default().bits(), 0);
}

#[test]
fn intents_default_and_privilege_split() {
    assert_eq!(Intents::default().bits(), INTENTS_NON_PRIVILEGED);
    assert_eq!(Intents::NON_PRIVILEGED() | Intents::PRIVILEGED(), Intents::ALL());
    assert_eq!((Intents::NON_PRIVILEGED() & Intents::PRIVILEGED()).bits(), 0);
    assert_eq!(Intents::ALL().bits(), INTENTS_KNOWN);
    assert_eq!(
        Intents::PRIVILEGED().bits(),
        (Intents::GUILD_MEMBERS() | Intents::GUILD_PRESENCES() | Intents::MESSAGE_CONTENT()).bits()
    );
    assert_eq!(INTENTS_PRIVILEGED, 0x8102);
    assert_eq!(Intents::DIRECT_MESSAGE_POLLS().bits(), 1 << 25);
    assert_eq!(Intents::from_bits(1 << 17), None);
    assert_eq!(Intents::from_bits_truncate((1 << 17) | 1), Intents::GUILDS());
}

#[test]
fn snowflake_parts() {
    let s = Snowflake::new(175928847299117063);
    assert_eq!(s.timestamp(), (175928847299117063u64 >> 22) + 1420070400000);
    assert_eq!(s.timestamp(), 1462015105796);
    assert_eq!(s.worker_id(), 1);
    assert_eq!(s.process_id(), 0);
    assert_eq!(s.increment(), 7);
    let rebuilt = ((s.timestamp() - 1420070400000) << 22)
        | ((s.worker_id() as u64) << 17)
        | ((s.process_id() as u64) << 12)
        | s.increment() as u64;
    assert_eq!(rebuilt, s.get());
}

#[test]
fn snowflake_string_roundtrip_and_rejections() {
    for id in [0u64, 1, 9, 10, 175928847299117063, u64::MAX] {
        let s = Snowflake::new(id);
        assert_eq!(Snowflake::parse(&s.to_string()), Some(s));
    }
    assert_eq!(Snowflake::parse("+42"), Some(Snowflake(42)));
    assert_eq!(Snowflake::parse(""), None);
    assert_eq!(Snowflake::parse("+"), None);
    assert_eq!(Snowflake::parse("12a"), None);
    assert_eq!(Snowflake::parse("-1"), None);
    assert_eq!(Snowflake::parse("18446744073709551616"), None);
    assert_eq!(Snowflake::from_i64(-1), Snowflake(u64::MAX));
    assert_eq!(Snowflake::from_i64(5), Snowflake(5));
    assert_eq!(u64::from(Snowflake::from(77u64)), 77);
    assert_eq!(Snowflake::default(), Snowflake(0));
}

#[test]
fn titan_string_compares_text() {
    let borrowed = TitanString::from("hello");
    let owned = TitanString::from("hello".to_string());
    let shared = TitanString::from(Arc::<str>::from("hello"));
    assert_eq!(borrowed, owned);
    assert_eq!(owned, shared);
    assert_eq!(borrowed, "hello".to_string());
    assert_eq!("hello".to_string(), shared);
    assert!(borrowed == "hello");
    assert_ne!(borrowed, TitanString::from("world"));
    assert_eq!(borrowed.as_str(), "hello");
    assert_eq!(&*shared, "hello");
    assert_eq!(shared.clone().into_owned(), "hello");
    assert_eq!(&*owned.into_shared(), "hello");
    assert_eq!(TitanString::default(), TitanString::Borrowed(""));
    match TitanString::from(Cow::Borrowed("x")) {
        TitanString::Borrowed(s) => assert_eq!(s, "x"),
        _ => panic!("a borrowed cow stays borrowed"),
    }
    match TitanString::from(Cow::<str>::Owned("y".to_string())) {
        TitanString::Owned(s) => assert_eq!(s, "y"),
        _ => panic!("an owned cow stays owned"),
    }
    assert_eq!(TitanString::from("z").to_string(), "z");
}

#[test]
fn titan_strings_hash_by_text() {
    let mut set = std::collections::HashSet::new();
    set.insert(TitanString::from("a"));
    set.insert(TitanString::from("a".to_string()));
    set.insert(TitanString::from(Arc::<str>::from("b")));
    assert_eq!(set.len(), 2);
    let owner = "held".to_string();
    match TitanString::from(&owner) {
        TitanString::Borrowed(s) => assert_eq!(s, "held"),
        _ => panic!("a borrowed String stays borrowed"),
    }
    assert!(TitanString::from("held") == *"held");
}
