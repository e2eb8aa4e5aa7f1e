use moat::ids::{new_uuid, parse_uuid, uuid_string};

#[test]
fn parses_hyphenated_uuid() {
    assert_eq!(
        parse_uuid("a1a2a3a4-b1b2-c1c2-d1d2-d3d4d5d6d7d8"),
        Some(0xa1a2a3a4b1b2c1c2d1d2d3d4d5d6d7d8u128)
    );
}

#[test]
fn rejects_text_that_is_not_a_uuid() {
    assert_eq!(parse_uuid("not-a-uuid"), None);
    assert_eq!(parse_uuid(""), None);
    assert_eq!(parse_uuid("a1a2a3a4-b1b2-c1c2-d1d2-d3d4d5d6d7dz"), None);
}

#[test]
fn prints_hyphenated_lower_case() {
    assert_eq!(
        uuid_string(0xa1a2a3a4b1b2c1c2d1d2d3d4d5d6d7d8),
        "a1a2a3a4-b1b2-c1c2-d1d2-d3d4d5d6d7d8"
    );
    assert_eq!(uuid_string(0), "00000000-0000-0000-0000-000000000000");
    assert_eq!(uuid_string(u128::MAX), "ffffffff-ffff-ffff-ffff-ffffffffffff");
}

#[test]
fn printed_ids_read_back() {
    for id in [0u128, 1, 0xdead_beef, u128::MAX, new_uuid(), new_uuid()] {
        let text = uuid_string(id);
        assert_eq!(text.len(), 36);
        for (i, c) in text.chars().enumerate() {
            if i == 8 || i == 13 || i == 18 || i == 23 {
                assert_eq!(c, '-');
            } else {
                assert!(c.is_ascii_digit() || ('a'..='f').contains(&c));
            }
        }
        assert_eq!(parse_uuid(&text), Some(id));
    }
}

#[test]
fn fresh_ids_differ() {
    assert_ne!(new_uuid(), new_uuid());
}

#[test]
fn fresh_ids_are_version_4() {
    for _ in 0..8 {
        let id = new_uuid();
        assert_eq!((id >> 76) & 0xf, 4);
        assert_eq!((id >> 62) & 0x3, 2);
        assert_eq!(uuid_string(id).chars().nth(14), Some('4'));
    }
}
