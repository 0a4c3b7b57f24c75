use loveletter::errors::AppError;
use loveletter::inputs::UserMessage;
use loveletter::padlock::Padlock;
use loveletter::store::{decode_text, identifier_from, MessageStore, MessageSummary};

fn s(text: &str) -> String {
    text.to_string()
}

fn fixed_padlock() -> Padlock {
    Padlock::with_keys((0u8..32).collect(), (100u8..132).collect()).unwrap()
}

fn lines(store: &MessageStore, padlock: &Padlock, recipient: &str) -> Vec<String> {
    store
        .fetch_for(padlock, &s(recipient))
        .iter()
        .map(|summary| summary.render())
        .collect()
}

#[test]
fn an_appended_message_is_fetched_verified() {
    let padlock = Padlock::new().unwrap();
    let mut store = MessageStore::new();
    let id = store.append(&padlock, s("alice"), s("bob"), b"hi").unwrap();
    assert_eq!(id.len(), 36);
    assert_eq!(store.len(), 1);
    let summaries = store.fetch_for(&padlock, &s("bob"));
    assert_eq!(summaries.len(), 1);
    match &summaries[0] {
        MessageSummary::Verified { id: shown, from, body } => {
            assert_eq!(shown, &id);
            assert_eq!(from, "alice");
            assert_eq!(body, "hi");
        }
        other => panic!("expected a verified message, got {:?}", other),
    }
}

#[test]
fn fetch_lists_only_the_recipients_messages_in_insertion_order() {
    let padlock = Padlock::new().unwrap();
    let mut store = MessageStore::new();
    let first = store.append(&padlock, s("alice"), s("bob"), b"one").unwrap();
    let _other = store.append(&padlock, s("alice"), s("carol"), b"two").unwrap();
    let third = store.append(&padlock, s("carol"), s("bob"), b"three").unwrap();
    assert_eq!(
        lines(&store, &padlock, "bob"),
        vec![
            format!("MsgID: {}, From: alice, Body: one", first),
            format!("MsgID: {}, From: carol, Body: three", third),
        ]
    );
    assert_eq!(lines(&store, &padlock, "alice"), Vec::<String>::new());
    assert_eq!(lines(&store, &padlock, "nobody"), Vec::<String>::new());
}

#[test]
fn fetching_does_not_consume_messages() {
    let padlock = Padlock::new().unwrap();
    let mut store = MessageStore::new();
    store.append(&padlock, s("alice"), s("bob"), b"still here").unwrap();
    let first = lines(&store, &padlock, "bob");
    let second = lines(&store, &padlock, "bob");
    assert_eq!(first, second);
    assert_eq!(store.len(), 1);
}

#[test]
fn identifier_from_sets_version_and_variant_and_keeps_the_rest() {
    let counting: Vec<u8> = (0u8..16).collect();
    assert_eq!(
        identifier_from(&counting),
        Ok(s("00010203-0405-4607-8809-0a0b0c0d0e0f"))
    );
    assert_eq!(
        identifier_from(&[0u8; 16]),
        Ok(s("00000000-0000-4000-8000-000000000000"))
    );
    assert_eq!(
        identifier_from(&[0xffu8; 16]),
        Ok(s("ffffffff-ffff-4fff-bfff-ffffffffffff"))
    );
}

#[test]
fn identifier_from_refuses_other_lengths() {
    for len in [0usize, 1, 15, 17, 32] {
        assert_eq!(
            identifier_from(&vec![7u8; len]),
            Err(AppError::Internal(s("Identifier needs 16 bytes")))
        );
    }
}

#[test]
fn identifiers_are_hyphenated_version_4_uuids() {
    let padlock = Padlock::new().unwrap();
    let mut store = MessageStore::new();
    for _ in 0..20 {
        let id = store.append(&padlock, s("alice"), s("bob"), b"x").unwrap();
        let chars: Vec<char> = id.chars().collect();
        assert_eq!(chars.len(), 36);
        for (i, c) in chars.iter().enumerate() {
            if i == 8 || i == 13 || i == 18 || i == 23 {
                assert_eq!(*c, '-');
            } else {
                assert!(matches!(*c, '0'..='9' | 'a'..='f'));
            }
        }
        assert_eq!(chars[14], '4');
        assert!(matches!(chars[19], '8' | '9' | 'a' | 'b'));
    }
}

#[test]
fn appended_messages_get_distinct_identifiers() {
    let padlock = Padlock::new().unwrap();
    let mut store = MessageStore::new();
    let mut ids = Vec::new();
    for _ in 0..50 {
        ids.push(store.append(&padlock, s("alice"), s("bob"), b"x").unwrap());
    }
    for i in 0..ids.len() {
        for j in 0..i {
            assert_ne!(ids[i], ids[j]);
        }
        assert!(store.has_id(&ids[i]));
    }
    assert!(!store.has_id(&s("no such id")));
}

#[test]
fn a_record_that_does_not_open_is_listed_as_undecodable() {
    let padlock = fixed_padlock();
    let mut store = MessageStore::new();
    store.append(&padlock, s("alice"), s("bob"), b"before").unwrap();
    store
        .store(UserMessage {
            id: s("broken"),
            from: s("mallory"),
            to: s("bob"),
            body_enc: vec![0u8; 40],
            body_hash: vec![0u8; 32],
        })
        .unwrap();
    store.append(&padlock, s("alice"), s("bob"), b"after").unwrap();
    let summaries = store.fetch_for(&padlock, &s("bob"));
    assert_eq!(summaries.len(), 3);
    assert!(matches!(&summaries[0], MessageSummary::Verified { body, .. } if body == "before"));
    assert!(matches!(&summaries[1], MessageSummary::Undecodable { id } if id == "broken"));
    assert!(matches!(&summaries[2], MessageSummary::Verified { body, .. } if body == "after"));
    assert_eq!(summaries[1].render(), "MsgID: broken, [ERROR decrypting message]");
}

#[test]
fn a_record_too_short_to_hold_nonce_and_tag_is_undecodable() {
    let padlock = fixed_padlock();
    let mut store = MessageStore::new();
    store
        .store(UserMessage {
            id: s("short"),
            from: s("mallory"),
            to: s("bob"),
            body_enc: vec![1u8; 27],
            body_hash: Vec::new(),
        })
        .unwrap();
    assert_eq!(
        lines(&store, &padlock, "bob"),
        vec![s("MsgID: short, [ERROR decrypting message]")]
    );
}

#[test]
fn a_body_whose_mac_does_not_match_is_shown_with_a_warning() {
    let padlock = fixed_padlock();
    let mut store = MessageStore::new();
    let body_enc = padlock.encrypt(b"the real text").unwrap();
    store
        .store(UserMessage {
            id: s("m1"),
            from: s("alice"),
            to: s("bob"),
            body_enc,
            body_hash: padlock.compute_hmac(b"some other text"),
        })
        .unwrap();
    let summaries = store.fetch_for(&padlock, &s("bob"));
    assert_eq!(summaries.len(), 1);
    match &summaries[0] {
        MessageSummary::Tampered { id, from, body } => {
            assert_eq!(id, "m1");
            assert_eq!(from, "alice");
            assert_eq!(body, "the real text");
        }
        other => panic!("expected a warning, got {:?}", other),
    }
    assert_eq!(
        summaries[0].render(),
        "MsgID: m1, From: alice, Body: the real text [WARNING: HMAC verification failed!]"
    );
}

#[test]
fn a_record_sealed_by_hand_with_the_right_mac_is_verified() {
    let padlock = fixed_padlock();
    let mut store = MessageStore::new();
    store
        .store(UserMessage {
            id: s("m1"),
            from: s("alice"),
            to: s("bob"),
            body_enc: padlock.seal_with_nonce(vec![5u8; 12], b"by hand").unwrap(),
            body_hash: padlock.compute_hmac(b"by hand"),
        })
        .unwrap();
    assert_eq!(
        lines(&store, &padlock, "bob"),
        vec![s("MsgID: m1, From: alice, Body: by hand")]
    );
}

#[test]
fn store_refuses_an_identifier_that_is_in_use() {
    let padlock = fixed_padlock();
    let mut store = MessageStore::new();
    let record = |to: &str| UserMessage {
        id: s("dup"),
        from: s("alice"),
        to: s(to),
        body_enc: Vec::new(),
        body_hash: Vec::new(),
    };
    assert_eq!(store.store(record("bob")), Ok(()));
    assert_eq!(
        store.store(record("carol")),
        Err(AppError::Internal(s("Message id already in use")))
    );
    assert_eq!(store.len(), 1);
    assert_eq!(lines(&store, &padlock, "carol"), Vec::<String>::new());
    assert_eq!(lines(&store, &padlock, "bob").len(), 1);
}

#[test]
fn delete_removes_exactly_the_named_message() {
    let padlock = Padlock::new().unwrap();
    let mut store = MessageStore::new();
    let first = store.append(&padlock, s("alice"), s("bob"), b"one").unwrap();
    let second = store.append(&padlock, s("alice"), s("bob"), b"two").unwrap();
    let third = store.append(&padlock, s("alice"), s("bob"), b"three").unwrap();
    assert_eq!(store.delete(&s("bob"), &second), Ok(()));
    assert_eq!(store.len(), 2);
    assert_eq!(
        lines(&store, &padlock, "bob"),
        vec![
            format!("MsgID: {}, From: alice, Body: one", first),
            format!("MsgID: {}, From: alice, Body: three", third),
        ]
    );
    assert_eq!(store.delete(&s("bob"), &second), Err(AppError::MessageNotFound));
    assert_eq!(store.len(), 2);
}

#[test]
fn delete_requires_the_recipient_to_own_the_message() {
    let padlock = Padlock::new().unwrap();
    let mut store = MessageStore::new();
    let id = store.append(&padlock, s("alice"), s("bob"), b"for bob").unwrap();
    assert_eq!(store.delete(&s("carol"), &id), Err(AppError::MessageNotFound));
    assert_eq!(store.delete(&s("alice"), &id), Err(AppError::MessageNotFound));
    assert_eq!(store.len(), 1);
    assert_eq!(store.delete(&s("bob"), &id), Ok(()));
    assert_eq!(store.len(), 0);
}

#[test]
fn delete_on_an_empty_store_finds_nothing() {
    let mut store = MessageStore::new();
    assert_eq!(store.len(), 0);
    assert_eq!(store.delete(&s("bob"), &s("any")), Err(AppError::MessageNotFound));
}

#[test]
fn bodies_that_are_not_utf8_are_shown_with_replacement_characters() {
    let padlock = Padlock::new().unwrap();
    let mut store = MessageStore::new();
    store.append(&padlock, s("alice"), s("bob"), &[b'o', b'k', 0xff, b'!']).unwrap();
    let summaries = store.fetch_for(&padlock, &s("bob"));
    assert!(
        matches!(&summaries[0], MessageSummary::Verified { body, .. } if body == "ok\u{fffd}!")
    );
}

#[test]
fn decode_text_keeps_valid_utf8_and_replaces_the_rest() {
    assert_eq!(decode_text(b"plain"), "plain");
    assert_eq!(decode_text("hé ✓ 日本".as_bytes()), "hé ✓ 日本");
    assert_eq!(decode_text(&[]), "");
    assert_eq!(decode_text(&[0x80]), "\u{fffd}");
    assert_eq!(decode_text(&[b'a', 0xc3]), "a\u{fffd}");
}

#[test]
fn render_gives_one_line_per_kind() {
    let verified = MessageSummary::Verified { id: s("1"), from: s("alice"), body: s("hi") };
    let tampered = MessageSummary::Tampered { id: s("2"), from: s("alice"), body: s("hi") };
    let undecodable = MessageSummary::Undecodable { id: s("3") };
    assert_eq!(verified.render(), "MsgID: 1, From: alice, Body: hi");
    assert_eq!(
        tampered.render(),
        "MsgID: 2, From: alice, Body: hi [WARNING: HMAC verification failed!]"
    );
    assert_eq!(undecodable.render(), "MsgID: 3, [ERROR decrypting message]");
}
