use permit_store::keys::{encode_category_key, encode_status_key};
use permit_store::Status;

#[test]
fn category_key_is_county_separator_id() {
    assert_eq!(
        encode_category_key("Travis", "1234-abcd"),
        "Travis-1234-abcd"
    );
    assert_eq!(encode_category_key("", "x"), "-x");
}

#[test]
fn status_key_is_status_name_separator_id() {
    assert_eq!(encode_status_key(Status::Active, "abc"), "Active-abc");
    assert_eq!(
        encode_status_key(Status::UnderReview, "abc"),
        "UnderReview-abc"
    );
}
