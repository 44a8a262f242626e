use artifacts_client::models::{Character, Cooldown, CooldownReason};

#[test]
fn cooldown_from_wire_parses_rfc3339() {
    let c = Cooldown::from_wire(
        5,
        5,
        "2024-01-01T00:00:00Z",
        "2024-01-01T00:00:05Z",
        CooldownReason::Fight,
    )
    .expect("well-formed timestamps");
    assert_eq!(c.total_seconds, 5);
    assert_eq!(c.remaining_seconds, 5);
    assert_eq!(c.started_at, 1704067200);
    assert_eq!(c.expiration, 1704067205);
    assert_eq!(c.reason(), CooldownReason::Fight);
}

#[test]
fn cooldown_from_wire_honors_offsets() {
    let c = Cooldown::from_wire(
        0,
        0,
        "2024-01-01T02:00:00+02:00",
        "2024-01-01T02:00:00+02:00",
        CooldownReason::Rest,
    )
    .expect("offset timestamps are well-formed");
    assert_eq!(c.started_at, 1704067200);
}

#[test]
fn cooldown_from_wire_rejects_bad_texts() {
    assert!(Cooldown::from_wire(1, 1, "yesterday", "2024-01-01T00:00:05Z", CooldownReason::Rest)
        .is_none());
    assert!(Cooldown::from_wire(1, 1, "2024-01-01T00:00:00Z", "", CooldownReason::Rest).is_none());
}

#[test]
fn character_from_wire_parses_expiration() {
    let c = Character::from_wire(
        String::from("Penguin"),
        125,
        4,
        87,
        115,
        390,
        750,
        -2,
        13,
        6,
        "2024-01-01T00:00:06Z",
    )
    .expect("well-formed timestamp");
    assert_eq!(c.name, "Penguin");
    assert_eq!(c.gold, 125);
    assert_eq!(c.hp, 87);
    assert_eq!(c.cooldown_expiration, 1704067206);
}

#[test]
fn character_from_wire_rejects_bad_expiration() {
    let r = Character::from_wire(
        String::from("Penguin"),
        0,
        1,
        1,
        1,
        0,
        1,
        0,
        0,
        0,
        "not a timestamp",
    );
    assert!(r.is_none());
}
