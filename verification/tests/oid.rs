use es_git::oid::{into_oids, ObjectId};
use es_git::Error;

fn engine_bytes(text: &str) -> Option<[u8; 20]> {
    git2::Oid::from_str(text).ok().map(|oid| {
        let mut bytes = [0u8; 20];
        bytes.copy_from_slice(oid.as_bytes());
        bytes
    })
}

#[test]
fn parse_reads_a_full_id() {
    let id = ObjectId::parse("0123456789abcdef0123456789abcdef01234567").unwrap();
    assert_eq!(
        id.bytes,
        [
            0x01, 0x23, 0x45, 0x67, 0x89, 0xab, 0xcd, 0xef, 0x01, 0x23, 0x45, 0x67, 0x89, 0xab, 0xcd, 0xef, 0x01,
            0x23, 0x45, 0x67
        ]
    );
}

#[test]
fn parse_takes_upper_case_digits() {
    let lower = ObjectId::parse("deadbeef").unwrap();
    let upper = ObjectId::parse("DEADBEEF").unwrap();
    assert_eq!(lower, upper);
    assert_eq!(&upper.bytes[..4], &[0xde, 0xad, 0xbe, 0xef]);
}

#[test]
fn parse_fills_an_abbreviated_id_with_zeros() {
    let id = ObjectId::parse("abc").unwrap();
    let mut expected = [0u8; 20];
    expected[0] = 0xab;
    expected[1] = 0xc0;
    assert_eq!(id.bytes, expected);
    let one = ObjectId::parse("f").unwrap();
    let mut expected = [0u8; 20];
    expected[0] = 0xf0;
    assert_eq!(one.bytes, expected);
}

#[test]
fn parse_refuses_what_is_no_id() {
    for text in ["", "xyz", "12 34", "0123456789abcdef0123456789abcdef012345678", "abcg", "é", "-1", "0x12"] {
        match ObjectId::parse(text) {
            Err(Error::Engine(e)) => {
                assert!(e.code < 0);
                assert!(!e.message.is_empty());
            }
            other => panic!("{text:?} gave {other:?}"),
        }
    }
}

#[test]
fn parse_agrees_with_the_engine() {
    let texts = [
        "",
        "0",
        "a",
        "G",
        "00",
        "abc",
        "ABCDEF",
        "0123456789abcdef0123456789abcdef01234567",
        "0123456789abcdef0123456789abcdef0123456",
        "0123456789abcdef0123456789abcdef012345678",
        "ffffffffffffffffffffffffffffffffffffffff",
        "0000000000000000000000000000000000000000",
        " abc",
        "abc ",
        "ab\u{e9}",
    ];
    for text in texts {
        assert_eq!(ObjectId::parse(text).ok().map(|id| id.bytes), engine_bytes(text), "{text:?}");
    }
}

#[test]
fn to_hex_writes_forty_lower_case_digits() {
    let id = ObjectId::parse("0123456789ABCDEF0123456789abcdef01234567").unwrap();
    assert_eq!(id.to_hex(), "0123456789abcdef0123456789abcdef01234567");
    assert_eq!(ObjectId { bytes: [0; 20] }.to_hex(), "0000000000000000000000000000000000000000");
    assert_eq!(ObjectId { bytes: [0xff; 20] }.to_hex(), "ffffffffffffffffffffffffffffffffffffffff");
    assert_eq!(ObjectId::parse("abc").unwrap().to_hex(), "abc0000000000000000000000000000000000000");
}

#[test]
fn to_hex_agrees_with_the_engine() {
    for text in ["0123456789abcdef0123456789abcdef01234567", "a1", "00ff00ff", "9"] {
        let id = ObjectId::parse(text).unwrap();
        assert_eq!(id.to_hex(), git2::Oid::from_bytes(&id.bytes).unwrap().to_string());
    }
}

#[test]
fn hex_round_trip() {
    let mut bytes = [0u8; 20];
    for (i, b) in bytes.iter_mut().enumerate() {
        *b = (i as u8).wrapping_mul(37).wrapping_add(11);
    }
    let id = ObjectId { bytes };
    assert_eq!(ObjectId::parse(&id.to_hex()), Ok(id));
}

#[test]
fn zero_id_is_recognised() {
    assert!(ObjectId { bytes: [0; 20] }.is_zero());
    assert!(ObjectId::parse("0").unwrap().is_zero());
    let mut bytes = [0u8; 20];
    bytes[19] = 1;
    assert!(!ObjectId { bytes }.is_zero());
    bytes = [0u8; 20];
    bytes[0] = 0x10;
    assert!(!ObjectId { bytes }.is_zero());
    for text in ["0000", "0001", "1", "0000000000000000000000000000000000000001"] {
        let id = ObjectId::parse(text).unwrap();
        assert_eq!(id.is_zero(), git2::Oid::from_bytes(&id.bytes).unwrap().is_zero());
    }
}

#[test]
fn into_oids_reads_all_or_nothing() {
    let texts = vec!["aa".to_string(), "bb".to_string(), "0123456789abcdef0123456789abcdef01234567".to_string()];
    let ids = into_oids(&texts).unwrap();
    assert_eq!(ids.len(), 3);
    assert_eq!(ids[0].bytes[0], 0xaa);
    assert_eq!(ids[1].bytes[0], 0xbb);
    assert_eq!(ids[2].to_hex(), texts[2]);
    assert_eq!(into_oids(&Vec::new()), Ok(Vec::new()));
    let bad = vec!["aa".to_string(), "zz".to_string(), "bb".to_string()];
    assert!(matches!(into_oids(&bad), Err(Error::Engine(_))));
    let empty = vec![String::new()];
    assert!(matches!(into_oids(&empty), Err(Error::Engine(_))));
}
