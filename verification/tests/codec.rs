//! Tests for the identifier and folder-identifier wire codecs.

use smartschool::error::Error;
use smartschool::mydoc::{CustomFolderId, FileId, FolderId, RevisionId};
use smartschool::uuid::Uuid;

const SAMPLE_BITS: u128 = 0x0123_4567_89ab_cdef_0123_4567_89ab_cdef;
const SAMPLE_STR: &str = "01234567-89ab-cdef-0123-456789abcdef";

#[test]
fn uuid_to_hyphenated_groups_digits() {
    assert_eq!(Uuid(SAMPLE_BITS).to_hyphenated(), SAMPLE_STR);
}

#[test]
fn uuid_to_hyphenated_zero() {
    assert_eq!(
        Uuid(0).to_hyphenated(),
        "00000000-0000-0000-0000-000000000000"
    );
}

#[test]
fn uuid_to_hyphenated_max() {
    assert_eq!(
        Uuid(u128::MAX).to_hyphenated(),
        "ffffffff-ffff-ffff-ffff-ffffffffffff"
    );
}

#[test]
fn uuid_parse_lower_case() {
    assert_eq!(Uuid::parse(SAMPLE_STR), Some(Uuid(SAMPLE_BITS)));
}

#[test]
fn uuid_parse_upper_case() {
    assert_eq!(
        Uuid::parse("01234567-89AB-CDEF-0123-456789ABCDEF"),
        Some(Uuid(SAMPLE_BITS))
    );
}

#[test]
fn uuid_round_trip_through_string() {
    let u = Uuid(0xdead_beef_0000_0001_8000_0000_ffff_ffff);
    assert_eq!(Uuid::parse(&u.to_hyphenated()), Some(u));
}

#[test]
fn uuid_parse_rejects_bad_input() {
    // wrong length
    assert_eq!(Uuid::parse(""), None);
    assert_eq!(Uuid::parse("01234567-89ab-cdef-0123-456789abcde"), None);
    assert_eq!(Uuid::parse("01234567-89ab-cdef-0123-456789abcdef0"), None);
    // hyphen out of place
    assert_eq!(Uuid::parse("0123456789-ab-cdef-0123-456789abcdef"), None);
    // non-hex digit
    assert_eq!(Uuid::parse("0123456g-89ab-cdef-0123-456789abcdef"), None);
    // hyphens everywhere
    assert_eq!(Uuid::parse("------------------------------------"), None);
    // simple (non-hyphenated) form is not accepted
    assert_eq!(Uuid::parse("0123456789abcdef0123456789abcdef"), None);
}

#[test]
fn folder_id_encoding() {
    assert_eq!(FolderId::Root.to_wire_string(), "");
    assert_eq!(FolderId::Favorites.to_wire_string(), "favourites");
    assert_eq!(FolderId::Trashed.to_wire_string(), "trashed");
    let custom = FolderId::Custom(CustomFolderId(Uuid(SAMPLE_BITS)));
    assert_eq!(custom.to_wire_string(), SAMPLE_STR);
}

#[test]
fn folder_id_decoding() {
    assert_eq!(FolderId::from_wire_str(""), Ok(FolderId::Root));
    assert_eq!(FolderId::from_wire_str("favourites"), Ok(FolderId::Favorites));
    assert_eq!(FolderId::from_wire_str("trashed"), Ok(FolderId::Trashed));
    assert_eq!(
        FolderId::from_wire_str(SAMPLE_STR),
        Ok(FolderId::Custom(CustomFolderId(Uuid(SAMPLE_BITS))))
    );
}

#[test]
fn folder_id_round_trip() {
    let ids = [
        FolderId::Root,
        FolderId::Favorites,
        FolderId::Trashed,
        FolderId::Custom(CustomFolderId(Uuid(SAMPLE_BITS))),
    ];
    for id in ids {
        assert_eq!(FolderId::from_wire_str(&id.to_wire_string()), Ok(id));
    }
}

#[test]
fn folder_id_decode_rejects_arbitrary_strings() {
    assert_eq!(FolderId::from_wire_str("not-a-uuid"), Err(Error::Decode));
    assert_eq!(FolderId::from_wire_str("favourite"), Err(Error::Decode));
    assert_eq!(FolderId::from_wire_str("FAVOURITES"), Err(Error::Decode));
    assert_eq!(FolderId::from_wire_str("trash"), Err(Error::Decode));
    assert_eq!(
        FolderId::from_wire_str("01234567-89ab-cdef-0123-456789abcdeg"),
        Err(Error::Decode)
    );
}

#[test]
fn id_handles_expose_their_uuid() {
    let u = Uuid(SAMPLE_BITS);
    assert_eq!(CustomFolderId::from(u).as_inner(), u);
    assert_eq!(FileId::from(u).as_inner(), u);
    assert_eq!(RevisionId::from(u).as_inner(), u);
    assert_eq!(
        FolderId::from(CustomFolderId(u)),
        FolderId::Custom(CustomFolderId(u))
    );
}
