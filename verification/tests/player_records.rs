use mmo::record::PlayerFields;

fn fields() -> PlayerFields {
    PlayerFields {
        id: "3".to_string(),
        username: "bob".to_string(),
        position: "1.00,2.00,3.00".to_string(),
        velocity: "0.00,0.00,0.00".to_string(),
        input_direction: "1.00,0.00".to_string(),
        rotation: "90.00".to_string(),
        speed: "60".to_string(),
    }
}

#[test]
fn record_layout() {
    assert_eq!(fields().to_record(), "3;bob;1.00,2.00,3.00;0.00,0.00,0.00;1.00,0.00;90.00;60");
}

#[test]
fn record_round_trip() {
    let back = PlayerFields::from_record(&fields().to_record()).unwrap();
    assert_eq!(back.id, "3");
    assert_eq!(back.username, "bob");
    assert_eq!(back.position, "1.00,2.00,3.00");
    assert_eq!(back.speed, "60");
}

#[test]
fn short_record_has_no_fields() {
    assert!(PlayerFields::from_record("1;a;b;c;d;e").is_none());
    assert!(PlayerFields::from_record("").is_none());
    let extra = PlayerFields::from_record("1;a;b;c;d;e;f;g").unwrap();
    assert_eq!(extra.speed, "f");
}

#[test]
fn name_with_separator_breaks_the_record() {
    let mut f = fields();
    f.username = "a;b".to_string();
    let back = PlayerFields::from_record(&f.to_record()).unwrap();
    assert_eq!(back.username, "a");
}
