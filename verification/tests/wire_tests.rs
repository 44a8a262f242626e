use artifacts_client::models::Character;
use artifacts_client::wire::{
    character_json, character_response_json, format_i64, format_u64, parse_character_response,
    unwrap_data, wrap_data, ArtifactsApiResponse,
};

fn sample() -> Character {
    Character {
        name: String::from("Penguin"),
        gold: 125,
        level: 4,
        hp: 87,
        max_hp: 115,
        xp: 390,
        max_xp: 750,
        x: -2,
        y: 13,
        cooldown: 6,
        cooldown_expiration: 1704067206,
    }
}

#[test]
fn decimal_formatting() {
    assert_eq!(format_u64(0), "0");
    assert_eq!(format_u64(7), "7");
    assert_eq!(format_u64(10), "10");
    assert_eq!(format_u64(90210), "90210");
    assert_eq!(format_u64(u64::MAX), "18446744073709551615");
    assert_eq!(format_i64(0), "0");
    assert_eq!(format_i64(-1), "-1");
    assert_eq!(format_i64(-90210), "-90210");
    assert_eq!(format_i64(i64::MIN), "-9223372036854775808");
    assert_eq!(format_i64(i64::MAX), "9223372036854775807");
}

#[test]
fn character_json_text_is_exact() {
    let c = sample();
    assert_eq!(
        character_json(&c),
        "{\"name\":\"Penguin\",\"gold\":125,\"level\":4,\"hp\":87,\"max_hp\":115,\
         \"xp\":390,\"max_xp\":750,\"x\":-2,\"y\":13,\"cooldown\":6,\
         \"cooldown_expiration\":1704067206}"
    );
}

#[test]
fn envelope_wraps_and_unwraps_verbatim() {
    let payload = "{\"name\":\"Penguin\"}";
    let wrapped = wrap_data(payload);
    assert_eq!(wrapped, "{\"data\":{\"name\":\"Penguin\"}}");
    assert_eq!(unwrap_data(&wrapped), Some(String::from(payload)));
    assert_eq!(unwrap_data("{\"nope\":1}"), None);
    assert_eq!(unwrap_data("{\"data\":1"), None);
}

#[test]
fn name_escaping_in_the_json_text() {
    let mut c = sample();
    c.name = String::from("a\"b\\c");
    let text = character_json(&c);
    assert!(text.starts_with("{\"name\":\"a\\\"b\\\\c\","));
}

#[test]
fn response_round_trip_with_an_awkward_name() {
    // quotes, backslashes and control characters survive the round trip
    let mut c = sample();
    c.name = String::from("Pen\"gu\\in\nx\u{1f}\ty");
    let text = character_response_json(&c);
    let back = parse_character_response(&text).expect("canonical text must parse");
    assert_eq!(back.name, c.name);
    assert_eq!(character_response_json(&back), text);
}

#[test]
fn escaped_name_parses_from_plain_text() {
    let text = "{\"data\":{\"name\":\"a\\\"b\\u000Ac\",\"gold\":0,\"level\":1,\"hp\":1,\
                \"max_hp\":1,\"xp\":0,\"max_xp\":1,\"x\":0,\"y\":0,\"cooldown\":0,\
                \"cooldown_expiration\":0}}";
    let c = parse_character_response(text).expect("well-formed response");
    assert_eq!(c.name, "a\"b\nc");
}

#[test]
fn parser_rejects_broken_escapes() {
    // a raw control character inside the name
    assert!(parse_character_response(
        "{\"data\":{\"name\":\"a\tb\",\"gold\":1,\"level\":1,\"hp\":1,\"max_hp\":1,\"xp\":0,\
         \"max_xp\":1,\"x\":0,\"y\":0,\"cooldown\":0,\"cooldown_expiration\":0}}"
    )
    .is_none());
    // an unknown escape
    assert!(parse_character_response(
        "{\"data\":{\"name\":\"a\\qb\",\"gold\":1,\"level\":1,\"hp\":1,\"max_hp\":1,\"xp\":0,\
         \"max_xp\":1,\"x\":0,\"y\":0,\"cooldown\":0,\"cooldown_expiration\":0}}"
    )
    .is_none());
    // a lowercase hex escape is not canonical
    assert!(parse_character_response(
        "{\"data\":{\"name\":\"a\\u000ab\",\"gold\":1,\"level\":1,\"hp\":1,\"max_hp\":1,\"xp\":0,\
         \"max_xp\":1,\"x\":0,\"y\":0,\"cooldown\":0,\"cooldown_expiration\":0}}"
    )
    .is_none());
}

#[test]
fn response_round_trip() {
    // a successful response serializes and deserializes to the same fields
    let c = sample();
    let text = character_response_json(&c);
    let back = parse_character_response(&text).expect("canonical text must parse");
    assert_eq!(back.name, c.name);
    assert_eq!(back.gold, c.gold);
    assert_eq!(back.level, c.level);
    assert_eq!(back.hp, c.hp);
    assert_eq!(back.max_hp, c.max_hp);
    assert_eq!(back.xp, c.xp);
    assert_eq!(back.max_xp, c.max_xp);
    assert_eq!(back.x, c.x);
    assert_eq!(back.y, c.y);
    assert_eq!(back.cooldown, c.cooldown);
    assert_eq!(back.cooldown_expiration, c.cooldown_expiration);
    // and re-serializing reproduces the equivalent envelope
    assert_eq!(character_response_json(&back), text);
}

#[test]
fn response_parses_from_plain_text() {
    let text = "{\"data\":{\"name\":\"Ajax\",\"gold\":0,\"level\":1,\"hp\":100,\
                \"max_hp\":100,\"xp\":0,\"max_xp\":150,\"x\":0,\"y\":0,\"cooldown\":0,\
                \"cooldown_expiration\":0}}";
    let c = parse_character_response(text).expect("well-formed response");
    assert_eq!(c.name, "Ajax");
    assert_eq!(c.hp, 100);
    assert_eq!(c.cooldown_expiration, 0);
}

#[test]
fn parser_rejects_broken_texts() {
    assert!(parse_character_response("").is_none());
    assert!(parse_character_response("{\"data\":{}}").is_none());
    // a field out of order
    assert!(parse_character_response(
        "{\"data\":{\"gold\":1,\"name\":\"A\",\"level\":1,\"hp\":1,\"max_hp\":1,\"xp\":0,\
         \"max_xp\":1,\"x\":0,\"y\":0,\"cooldown\":0,\"cooldown_expiration\":0}}"
    )
    .is_none());
    // a leading zero is not canonical
    assert!(parse_character_response(
        "{\"data\":{\"name\":\"A\",\"gold\":01,\"level\":1,\"hp\":1,\"max_hp\":1,\"xp\":0,\
         \"max_xp\":1,\"x\":0,\"y\":0,\"cooldown\":0,\"cooldown_expiration\":0}}"
    )
    .is_none());
    // trailing garbage
    assert!(parse_character_response(
        "{\"data\":{\"name\":\"A\",\"gold\":1,\"level\":1,\"hp\":1,\"max_hp\":1,\"xp\":0,\
         \"max_xp\":1,\"x\":0,\"y\":0,\"cooldown\":0,\"cooldown_expiration\":0}} "
    )
    .is_none());
}

#[test]
fn envelope_type_carries_its_payload() {
    let r = ArtifactsApiResponse { data: 42u32 };
    assert_eq!(r.into_inner(), 42);
}
