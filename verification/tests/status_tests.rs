use permit_store::Status;

#[test]
fn status_to_text_is_canonical() {
    assert_eq!(Status::Active.to_text(), "Active");
    assert_eq!(Status::Inactive.to_text(), "Inactive");
    assert_eq!(Status::Pending.to_text(), "Pending");
    assert_eq!(Status::Closed.to_text(), "Closed");
    assert_eq!(Status::UnderReview.to_text(), "UnderReview");
}

#[test]
fn status_round_trip_every_variant() {
    let variants = [
        Status::Active,
        Status::Inactive,
        Status::Pending,
        Status::Closed,
        Status::UnderReview,
    ];
    for v in variants {
        assert_eq!(Status::from_str(&v.to_text()), Ok(v));
    }
}

#[test]
fn status_parse_is_case_insensitive() {
    assert_eq!(Status::from_str("active"), Ok(Status::Active));
    assert_eq!(Status::from_str("Active"), Ok(Status::Active));
    assert_eq!(Status::from_str("ACTIVE"), Ok(Status::Active));
    assert_eq!(Status::from_str("underREVIEW"), Ok(Status::UnderReview));
    assert_eq!(Status::from_str("cLoSeD"), Ok(Status::Closed));
}

#[test]
fn status_parse_rejects_unknown_text() {
    assert_eq!(Status::from_str("bogus"), Err(()));
    assert_eq!(Status::from_str(""), Err(()));
    assert_eq!(Status::from_str("Activee"), Err(()));
    assert_eq!(Status::from_str("Activ"), Err(()));
    assert_eq!(Status::from_str("under review"), Err(()));
}
