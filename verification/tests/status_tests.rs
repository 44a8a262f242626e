use artifacts_client::status::{
    classify_response, is_success, CharacterFightError, CharacterMoveError, CharacterRestError,
    DeleteCharacterError, GetAllMapsError, GetAllMonstersError, GetCharacterError,
    GetCharactersError, GetMapError, GetMonsterError, ResponseClass, StatusMapped,
};

#[test]
fn success_statuses() {
    assert!(is_success(200));
    assert!(is_success(201));
    assert!(is_success(299));
    assert!(!is_success(199));
    assert!(!is_success(300));
    assert!(!is_success(404));
}

#[test]
fn success_passes_body_through() {
    let r = classify_response::<CharacterFightError>(200, String::from("{\"data\":{}}"));
    assert!(matches!(r, ResponseClass::Success { body } if body == "{\"data\":{}}"));
}

#[test]
fn fight_mapping_yields_typed_errors() {
    let cases = [
        (486, CharacterFightError::ActionAlreadyInProgressForCharacter),
        (497, CharacterFightError::CharacterInventoryFull),
        (498, CharacterFightError::CharacterNotFound),
        (499, CharacterFightError::CharacterInCooldown),
        (598, CharacterFightError::MonsterNotFound),
    ];
    for (code, expected) in cases {
        let r = classify_response::<CharacterFightError>(code, String::from("ignored"));
        match r {
            ResponseClass::ApiError { status, error } => {
                assert_eq!(status, code);
                assert_eq!(error, expected);
            }
            _ => panic!("status {} must map to a typed error", code),
        }
    }
}

#[test]
fn rest_mapping_yields_typed_errors() {
    let cases = [
        (486, CharacterRestError::ActionAlreadyInProgressForCharacter),
        (498, CharacterRestError::CharacterNotFound),
        (499, CharacterRestError::CharacterInCooldown),
    ];
    for (code, expected) in cases {
        let r = classify_response::<CharacterRestError>(code, String::new());
        assert!(matches!(r, ResponseClass::ApiError { status, error } if status == code && error == expected));
    }
}

#[test]
fn move_mapping_yields_typed_errors() {
    let cases = [
        (404, CharacterMoveError::MapNotFound),
        (486, CharacterMoveError::ActionAlreadyInProgressForCharacter),
        (490, CharacterMoveError::CharacterAlreadyAtLocation),
        (498, CharacterMoveError::CharacterNotFound),
        (499, CharacterMoveError::CharacterInCooldown),
    ];
    for (code, expected) in cases {
        let r = classify_response::<CharacterMoveError>(code, String::new());
        assert!(matches!(r, ResponseClass::ApiError { status, error } if status == code && error == expected));
    }
}

#[test]
fn single_code_mappings() {
    assert_eq!(
        GetCharacterError::from_status(404),
        Some(GetCharacterError::CharacterNotFound)
    );
    assert_eq!(GetCharacterError::from_status(498), None);
    assert_eq!(
        DeleteCharacterError::from_status(498),
        Some(DeleteCharacterError::CharacterNotFound)
    );
    assert_eq!(DeleteCharacterError::from_status(404), None);
    assert_eq!(GetMapError::from_status(404), Some(GetMapError::MapNotFound));
    assert_eq!(
        GetMonsterError::from_status(404),
        Some(GetMonsterError::MonsterNotFound)
    );
}

#[test]
fn empty_mappings_know_no_code() {
    for code in [400u16, 404, 486, 498, 499, 500, 598] {
        assert_eq!(GetCharactersError::from_status(code), None);
        assert_eq!(GetAllMapsError::from_status(code), None);
        assert_eq!(GetAllMonstersError::from_status(code), None);
    }
}

#[test]
fn unknown_status_preserves_body_verbatim() {
    let body = String::from("{\"error\":{\"code\":418,\"message\":\"teapot\"}}");
    let r = classify_response::<CharacterRestError>(418, body.clone());
    match r {
        ResponseClass::UnknownStatus { status, body: b } => {
            assert_eq!(status, 418);
            assert_eq!(b, body);
        }
        _ => panic!("unmapped status must fall back to the unknown variant"),
    }
}

#[test]
fn unknown_status_never_for_mapped_codes() {
    for code in [486u16, 497, 498, 499, 598] {
        let r = classify_response::<CharacterFightError>(code, String::new());
        assert!(!matches!(r, ResponseClass::UnknownStatus { .. }));
        assert!(!matches!(r, ResponseClass::Success { .. }));
    }
}
