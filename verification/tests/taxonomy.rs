use hestia::expenses::{Bucket, ExpenseType, MaintenanceType, RequestStatus, UtilitiesType};

fn all_types() -> Vec<ExpenseType> {
    vec![
        ExpenseType::Maintenance(MaintenanceType::Repairs),
        ExpenseType::Maintenance(MaintenanceType::Cleaning),
        ExpenseType::Maintenance(MaintenanceType::Landscaping),
        ExpenseType::Maintenance(MaintenanceType::Other),
        ExpenseType::Utilities(UtilitiesType::Water),
        ExpenseType::Utilities(UtilitiesType::Electricity),
        ExpenseType::Utilities(UtilitiesType::Garbage),
        ExpenseType::Utilities(UtilitiesType::Gas),
        ExpenseType::Utilities(UtilitiesType::Other),
        ExpenseType::Other,
    ]
}

#[test]
fn encode_decode_round_trip_whole_taxonomy() {
    for t in all_types() {
        let wire = t.encode();
        assert_eq!(ExpenseType::decode(wire.as_str()), t);
    }
}

#[test]
fn encode_forms() {
    assert_eq!(
        ExpenseType::Maintenance(MaintenanceType::Repairs).encode(),
        "Maintenance: Repairs"
    );
    assert_eq!(
        ExpenseType::Utilities(UtilitiesType::Water).encode(),
        "Utilities: Water"
    );
    assert_eq!(
        ExpenseType::Utilities(UtilitiesType::Garbage).encode(),
        "Utilities: Garbage"
    );
    assert_eq!(ExpenseType::Other.encode(), "Other");
}

#[test]
fn decode_unknown_main_falls_back_to_other() {
    assert_eq!(ExpenseType::decode("UnknownMain: X"), ExpenseType::Other);
    assert_eq!(ExpenseType::decode(""), ExpenseType::Other);
    assert_eq!(ExpenseType::decode("garbage text"), ExpenseType::Other);
}

#[test]
fn decode_unknown_sub_falls_back_to_category_other() {
    assert_eq!(
        ExpenseType::decode("Utilities: UnknownSub"),
        ExpenseType::Utilities(UtilitiesType::Other)
    );
    assert_eq!(
        ExpenseType::decode("Maintenance: Painting"),
        ExpenseType::Maintenance(MaintenanceType::Other)
    );
    assert_eq!(
        ExpenseType::decode("Utilities: Garbage/Recycle"),
        ExpenseType::Utilities(UtilitiesType::Other)
    );
}

#[test]
fn decode_without_colon_or_sub() {
    assert_eq!(
        ExpenseType::decode("Maintenance"),
        ExpenseType::Maintenance(MaintenanceType::Other)
    );
    assert_eq!(
        ExpenseType::decode("Utilities:"),
        ExpenseType::Utilities(UtilitiesType::Other)
    );
    assert_eq!(ExpenseType::decode("Other"), ExpenseType::Other);
}

#[test]
fn decode_tolerates_extra_spaces() {
    assert_eq!(
        ExpenseType::decode("  Maintenance :  Landscaping  "),
        ExpenseType::Maintenance(MaintenanceType::Landscaping)
    );
}

#[test]
fn parse_string_matches_taxonomy() {
    assert_eq!(
        ExpenseType::parse_string("Maintenance", "Repairs"),
        ExpenseType::Maintenance(MaintenanceType::Repairs)
    );
    assert_eq!(
        ExpenseType::parse_string("Utilities", "Gas"),
        ExpenseType::Utilities(UtilitiesType::Gas)
    );
    assert_eq!(
        ExpenseType::parse_string("Utilities", "anything"),
        ExpenseType::Utilities(UtilitiesType::Other)
    );
    assert_eq!(ExpenseType::parse_string("nonsense", "Water"), ExpenseType::Other);
}

#[test]
fn split_strings_give_both_words() {
    let (main, sub) = ExpenseType::Maintenance(MaintenanceType::Cleaning).to_split_strings();
    assert_eq!(main, "Maintenance");
    assert_eq!(sub, "Cleaning");
    let (main, sub) = ExpenseType::Other.to_split_strings();
    assert_eq!(main, "Other");
    assert_eq!(sub, "");
}

#[test]
fn every_type_lands_in_exactly_one_bucket() {
    let expected = vec![
        Bucket::Misc,
        Bucket::Misc,
        Bucket::Landscaping,
        Bucket::Misc,
        Bucket::Water,
        Bucket::Electricity,
        Bucket::GarbageRecycling,
        Bucket::Gas,
        Bucket::Misc,
        Bucket::Misc,
    ];
    let types = all_types();
    assert_eq!(types.len(), expected.len());
    for (t, b) in types.iter().zip(expected.iter()) {
        assert_eq!(t.bucket(), *b);
    }
}

#[test]
fn request_status_labels() {
    assert_eq!(RequestStatus::Received.label(), "RequestStatus: Received");
    assert_eq!(RequestStatus::InProgress.label(), "RequestStatus: In Progress");
    assert_eq!(RequestStatus::OnHold.label(), "RequestStatus: On Hold");
}
