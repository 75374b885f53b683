use cassandra_crud::user_id::UserId;

const FIXED: &str = "534a87db-df22-48eb-901b-4fac9c392954";

const FIXED_BYTES: [u8; 16] = [
    0x53, 0x4a, 0x87, 0xdb, 0xdf, 0x22, 0x48, 0xeb, 0x90, 0x1b, 0x4f, 0xac, 0x9c, 0x39, 0x29,
    0x54,
];

#[test]
fn parses_fixed_id_to_expected_bytes() {
    let u = UserId::from_text(FIXED).expect("fixed id must parse");
    assert_eq!(u.bytes().as_slice(), &FIXED_BYTES);
}

#[test]
fn agrees_with_uuid_crate() {
    let ours = UserId::from_text(FIXED).expect("fixed id must parse");
    let theirs = uuid::Uuid::parse_str(FIXED).expect("uuid crate must parse");
    assert_eq!(ours.bytes().as_slice(), theirs.as_bytes());
}

#[test]
fn formats_back_to_the_same_text() {
    let u = UserId::from_text(FIXED).expect("fixed id must parse");
    assert_eq!(u.to_text(), FIXED);
}

#[test]
fn uppercase_text_parses_and_formats_lowercase() {
    let upper = "534A87DB-DF22-48EB-901B-4FAC9C392954";
    let u = UserId::from_text(upper).expect("uppercase id must parse");
    assert_eq!(u.bytes().as_slice(), &FIXED_BYTES);
    assert_eq!(u.to_text(), FIXED);
}

#[test]
fn rejects_malformed_text() {
    assert!(UserId::from_text("").is_none());
    assert!(UserId::from_text("not a uuid").is_none());
    assert!(UserId::from_text("534a87db-df22-48eb-901b-4fac9c39295").is_none());
    assert!(UserId::from_text("534a87db-df22-48eb-901b-4fac9c39295g").is_none());
}

#[test]
fn from_bytes_accepts_exactly_sixteen() {
    assert!(UserId::from_bytes(FIXED_BYTES.to_vec()).is_some());
    assert!(UserId::from_bytes(vec![]).is_none());
    assert!(UserId::from_bytes(vec![0u8; 15]).is_none());
    assert!(UserId::from_bytes(vec![0u8; 17]).is_none());
}

#[test]
fn round_trip_through_bytes() {
    let u = UserId::from_bytes(FIXED_BYTES.to_vec()).expect("sixteen bytes");
    let text = u.to_text();
    assert_eq!(text, FIXED);
    let back = UserId::from_text(&text).expect("formatted text must parse");
    assert_eq!(back.bytes().as_slice(), &FIXED_BYTES);
}

#[test]
fn equality_goes_by_bytes() {
    let a = UserId::from_text(FIXED).expect("parse");
    let b = UserId::from_bytes(FIXED_BYTES.to_vec()).expect("bytes");
    let c = UserId::from_bytes(vec![0u8; 16]).expect("bytes");
    assert!(a.eq_id(&b));
    assert!(!a.eq_id(&c));
    assert!(a.duplicate().eq_id(&a));
}
