use artifacts_client::models::MapContentType;
use artifacts_client::requests::{
    character_path, content_type_code, delete_character_path, fight_action_path, map_path,
    maps_path, monster_path, monsters_path, move_action_path, move_body, my_characters_path,
    name_body, rest_action_path, urlencode, MapQuery, MonsterQuery,
};

#[test]
fn fixed_paths() {
    assert_eq!(my_characters_path(), "/my/characters");
    assert_eq!(delete_character_path(), "/characters/delete");
    assert_eq!(maps_path(), "/maps");
    assert_eq!(monsters_path(), "/monsters");
}

#[test]
fn parametrised_paths() {
    assert_eq!(character_path("Penguin"), "/characters/Penguin");
    assert_eq!(monster_path("chicken"), "/monsters/chicken");
    assert_eq!(fight_action_path("Penguin"), "/my/Penguin/action/fight");
    assert_eq!(rest_action_path("Penguin"), "/my/Penguin/action/rest");
    assert_eq!(move_action_path("Penguin"), "/my/Penguin/action/move");
    assert_eq!(map_path(-3, 5), "/maps/-3/5");
    assert_eq!(map_path(0, 0), "/maps/0/0");
}

#[test]
fn urlencode_changes_unsafe_bytes() {
    // space to plus, slash to percent escape, safe bytes unchanged
    assert_eq!(urlencode("a b/c"), "a+b%2Fc");
    assert_eq!(urlencode("Ab9*-._"), "Ab9*-._");
    assert_eq!(urlencode("100%"), "100%25");
    assert_eq!(character_path("a b"), "/characters/a+b");
}

#[test]
fn post_bodies() {
    assert_eq!(name_body("Penguin"), "{\"name\":\"Penguin\"}");
    assert_eq!(name_body("a\"b\\c"), "{\"name\":\"a\\\"b\\\\c\"}");
    assert_eq!(name_body("a\nb"), "{\"name\":\"a\\u000Ab\"}");
    assert_eq!(move_body(4, -7), "{\"x\":4,\"y\":-7}");
}

#[test]
fn content_type_codes() {
    assert_eq!(content_type_code(MapContentType::Monster), "monster");
    assert_eq!(content_type_code(MapContentType::Resource), "resource");
    assert_eq!(content_type_code(MapContentType::Workshop), "workshop");
    assert_eq!(content_type_code(MapContentType::Bank), "bank");
    assert_eq!(
        content_type_code(MapContentType::GrandExchange),
        "grand_exchange"
    );
    assert_eq!(
        content_type_code(MapContentType::TasksMaster),
        "tasks_master"
    );
    assert_eq!(content_type_code(MapContentType::Npc), "npc");
}

#[test]
fn map_query_builder_and_text() {
    let q = MapQuery::default();
    assert_eq!(q.to_query_string(), "");

    let q = MapQuery::default()
        .content_type(MapContentType::Monster)
        .content_code(String::from("chicken"));
    assert_eq!(
        q.to_query_string(),
        "content_type=monster&content_code=chicken"
    );

    let q = MapQuery::default().page_number(3).page_size(50);
    assert_eq!(q.to_query_string(), "page_number=3&page_size=50");
}

#[test]
fn monster_query_builder_and_text() {
    let q = MonsterQuery::default();
    assert_eq!(q.to_query_string(), "");

    let q = MonsterQuery::default()
        .name(String::from("red imp"))
        .min_level(2)
        .max_level(9);
    assert_eq!(
        q.to_query_string(),
        "name=red+imp&min_level=2&max_level=9"
    );

    let q = MonsterQuery::default().drop(String::from("egg"));
    assert_eq!(q.to_query_string(), "drop=egg");
}
